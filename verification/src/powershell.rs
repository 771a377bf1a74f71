//! The PowerShell side of the subsystem: the scripts that the host is asked to
//! run, and the failures that running one can end in.
//!
//! Nothing here starts a process. A function gives the text of the script; the
//! caller runs it and hands back what came of it.

use crate::text::{double_quotes, quotes_doubled, trim, trimmed};
use vstd::prelude::*;
use vstd::string::*;

verus! {

/// How a privileged command can fail.
#[derive(Debug)]
pub enum PowerShellError {
    /// The PowerShell process could not be started.
    ExecutionFailed(String),
    /// The script ran and reported a failure; the text is what it wrote to its
    /// error stream.
    ScriptError(String),
    /// The output of the script could not be decoded.
    ParseError(String),
}

/// The model of a [`PowerShellError`].
pub enum FailureModel {
    ExecutionFailed(Seq<char>),
    ScriptError(Seq<char>),
    ParseError(Seq<char>),
}

impl View for PowerShellError {
    type V = FailureModel;

    open spec fn view(&self) -> FailureModel {
        match self {
            PowerShellError::ExecutionFailed(text) => FailureModel::ExecutionFailed(text@),
            PowerShellError::ScriptError(text) => FailureModel::ScriptError(text@),
            PowerShellError::ParseError(text) => FailureModel::ParseError(text@),
        }
    }
}

/// The line that tells an operator of a failure.
pub open spec fn failure_message(failure: FailureModel) -> Seq<char> {
    match failure {
        FailureModel::ExecutionFailed(text) => "Failed to execute PowerShell: "@ + text,
        FailureModel::ScriptError(text) => "PowerShell returned error: "@ + text,
        FailureModel::ParseError(text) => "Failed to parse output: "@ + text,
    }
}

impl PowerShellError {
    /// The line that tells an operator of this failure: what went wrong, then
    /// the diagnostic text that came with it.
    pub fn message(&self) -> (line: String)
        ensures
            line@ == failure_message(self@),
    {
        match self {
            PowerShellError::ExecutionFailed(text) => {
                "Failed to execute PowerShell: ".to_string().concat(text.as_str())
            },
            PowerShellError::ScriptError(text) => {
                "PowerShell returned error: ".to_string().concat(text.as_str())
            },
            PowerShellError::ParseError(text) => {
                "Failed to parse output: ".to_string().concat(text.as_str())
            },
        }
    }
}

/// The model of a [`ProcessOutcome`].
pub enum OutcomeModel {
    NotStarted(Seq<char>),
    Finished { success: bool, stdout: Seq<char>, stderr: Seq<char> },
}

/// What came of the attempt to run a script.
#[derive(Debug)]
pub enum ProcessOutcome {
    /// The process could not be started; the text says why.
    NotStarted(String),
    /// The process ran to its end: whether it reported success, and what it
    /// wrote to its output and to its error stream.
    Finished { success: bool, stdout: String, stderr: String },
}

impl View for ProcessOutcome {
    type V = OutcomeModel;

    open spec fn view(&self) -> OutcomeModel {
        match self {
            ProcessOutcome::NotStarted(reason) => OutcomeModel::NotStarted(reason@),
            ProcessOutcome::Finished { success, stdout, stderr } => OutcomeModel::Finished {
                success: *success,
                stdout: stdout@,
                stderr: stderr@,
            },
        }
    }
}

/// What a command comes to: the output without the white space around it
/// where the process reported success, `ScriptError` with the text of the
/// error stream where it reported failure, and `ExecutionFailed` where it did
/// not start.
pub open spec fn command_output(outcome: OutcomeModel) -> Result<Seq<char>, FailureModel> {
    match outcome {
        OutcomeModel::NotStarted(reason) => Err(FailureModel::ExecutionFailed(reason)),
        OutcomeModel::Finished { success, stdout, stderr } => if success {
            Ok(trimmed(stdout))
        } else {
            Err(FailureModel::ScriptError(stderr))
        },
    }
}

/// Turns what came of running a script into the output of the command or
/// its failure. A process that reports failure gives no output, whatever it
/// printed.
pub fn command_result(outcome: ProcessOutcome) -> (result: Result<String, PowerShellError>)
    ensures
        match result {
            Ok(output) => command_output(outcome@) == Ok::<_, FailureModel>(output@),
            Err(failure) => command_output(outcome@) == Err::<Seq<char>, _>(failure@),
        },
{
    match outcome {
        ProcessOutcome::NotStarted(reason) => Err(PowerShellError::ExecutionFailed(reason)),
        ProcessOutcome::Finished { success, stdout, stderr } => {
            if success {
                Ok(trim(stdout.as_str()))
            } else {
                Err(PowerShellError::ScriptError(stderr))
            }
        },
    }
}

/// The script that lists the connected USB devices as compact JSON: one object
/// for one device, an array for several, nothing for none.
pub const USB_DEVICES_QUERY: &'static str = r#"
        Get-PnpDevice -Class 'USB' -Status 'OK' -ErrorAction SilentlyContinue | 
        Select-Object @{N='instance_id';E={$_.InstanceId}}, 
                      @{N='friendly_name';E={if($_.FriendlyName){$_.FriendlyName}else{'Unknown Device'}}},
                      @{N='device_class';E={$_.Class}},
                      @{N='status';E={$_.Status}} |
        ConvertTo-Json -Compress
    "#;

/// What stands before the instance id in the script of [`get_device_info`].
pub const DEVICE_INFO_HEAD: &'static str = r#"
        Get-PnpDevice -InstanceId '"#;

/// What stands behind the instance id in the script of [`get_device_info`].
pub const DEVICE_INFO_TAIL: &'static str = r#"' -ErrorAction SilentlyContinue | 
        Select-Object @{N='instance_id';E={$_.InstanceId}}, 
                      @{N='friendly_name';E={if($_.FriendlyName){$_.FriendlyName}else{'Unknown Device'}}},
                      @{N='device_class';E={$_.Class}},
                      @{N='status';E={$_.Status}} |
        ConvertTo-Json -Compress
        "#;

/// The script that disables the device `instance_id`.
pub open spec fn disable_script(instance_id: Seq<char>) -> Seq<char> {
    "Disable-PnpDevice -InstanceId '"@ + quotes_doubled(instance_id)
        + "' -Confirm:$false -ErrorAction Stop"@
}

/// The script that enables the device `instance_id`.
pub open spec fn enable_script(instance_id: Seq<char>) -> Seq<char> {
    "Enable-PnpDevice -InstanceId '"@ + quotes_doubled(instance_id)
        + "' -Confirm:$false -ErrorAction Stop"@
}

/// The script that describes the device `instance_id`.
pub open spec fn device_info_script(instance_id: Seq<char>) -> Seq<char> {
    DEVICE_INFO_HEAD@ + quotes_doubled(instance_id) + DEVICE_INFO_TAIL@
}

/// The script that lists the connected USB devices as JSON.
pub fn get_usb_devices_json() -> (script: String)
    ensures
        script@ == USB_DEVICES_QUERY@,
{
    USB_DEVICES_QUERY.to_string()
}

/// The script that disables a device at the driver level. The id stands in
/// single quotes with each single quote inside it doubled, and so cannot close
/// the quotation: see [`crate::text::lemma_doubled_quotes_stay_quoted`].
pub fn disable_device(instance_id: &str) -> (script: String)
    ensures
        script@ == disable_script(instance_id@),
{
    let id = double_quotes(instance_id);
    "Disable-PnpDevice -InstanceId '".to_string().concat(id.as_str()).concat(
        "' -Confirm:$false -ErrorAction Stop",
    )
}

/// The script that enables a device that was disabled, quoted as in
/// [`disable_device`].
pub fn enable_device(instance_id: &str) -> (script: String)
    ensures
        script@ == enable_script(instance_id@),
{
    let id = double_quotes(instance_id);
    "Enable-PnpDevice -InstanceId '".to_string().concat(id.as_str()).concat(
        "' -Confirm:$false -ErrorAction Stop",
    )
}

/// The script that describes one device as a JSON object, quoted as in
/// [`disable_device`].
pub fn get_device_info(instance_id: &str) -> (script: String)
    ensures
        script@ == device_info_script(instance_id@),
{
    let id = double_quotes(instance_id);
    DEVICE_INFO_HEAD.to_string().concat(id.as_str()).concat(DEVICE_INFO_TAIL)
}

} // verus!
