use sentinel_guard::powershell::{
    command_result, disable_device, enable_device, get_device_info, get_usb_devices_json,
    PowerShellError, ProcessOutcome, USB_DEVICES_QUERY,
};

#[test]
fn usb_query_is_the_fixed_script() {
    let expected = r#"
        Get-PnpDevice -Class 'USB' -Status 'OK' -ErrorAction SilentlyContinue | 
        Select-Object @{N='instance_id';E={$_.InstanceId}}, 
                      @{N='friendly_name';E={if($_.FriendlyName){$_.FriendlyName}else{'Unknown Device'}}},
                      @{N='device_class';E={$_.Class}},
                      @{N='status';E={$_.Status}} |
        ConvertTo-Json -Compress
    "#;
    assert_eq!(get_usb_devices_json(), expected);
    assert_eq!(get_usb_devices_json(), USB_DEVICES_QUERY);
}

#[test]
fn disable_script_names_the_device() {
    assert_eq!(
        disable_device("USB\\VID_1234"),
        "Disable-PnpDevice -InstanceId 'USB\\VID_1234' -Confirm:$false -ErrorAction Stop"
    );
}

#[test]
fn enable_script_names_the_device() {
    assert_eq!(
        enable_device("USB\\VID_1234"),
        "Enable-PnpDevice -InstanceId 'USB\\VID_1234' -Confirm:$false -ErrorAction Stop"
    );
}

#[test]
fn scripts_double_the_quotes_of_an_id() {
    assert_eq!(
        disable_device("a'b"),
        "Disable-PnpDevice -InstanceId 'a''b' -Confirm:$false -ErrorAction Stop"
    );
    assert_eq!(
        enable_device("' ; calc ; '"),
        "Enable-PnpDevice -InstanceId ''' ; calc ; ''' -Confirm:$false -ErrorAction Stop"
    );
}

#[test]
fn device_info_script_names_the_device() {
    let expected = format!(
        r#"
        Get-PnpDevice -InstanceId '{}' -ErrorAction SilentlyContinue | 
        Select-Object @{{N='instance_id';E={{$_.InstanceId}}}}, 
                      @{{N='friendly_name';E={{if($_.FriendlyName){{$_.FriendlyName}}else{{'Unknown Device'}}}}}},
                      @{{N='device_class';E={{$_.Class}}}},
                      @{{N='status';E={{$_.Status}}}} |
        ConvertTo-Json -Compress
        "#,
        "USB\\VID''1"
    );
    assert_eq!(get_device_info("USB\\VID'1"), expected);
}

#[test]
fn message_of_execution_failure() {
    let failure = PowerShellError::ExecutionFailed("program not found".to_string());
    assert_eq!(failure.message(), "Failed to execute PowerShell: program not found");
}

#[test]
fn message_of_script_error() {
    let failure = PowerShellError::ScriptError("Access is denied".to_string());
    assert_eq!(failure.message(), "PowerShell returned error: Access is denied");
}

#[test]
fn message_of_parse_error() {
    let failure = PowerShellError::ParseError("expected value at line 1 column 1".to_string());
    assert_eq!(failure.message(), "Failed to parse output: expected value at line 1 column 1");
}

#[test]
fn command_that_did_not_start_fails() {
    let outcome = ProcessOutcome::NotStarted("No such file or directory".to_string());
    match command_result(outcome) {
        Err(PowerShellError::ExecutionFailed(reason)) => {
            assert_eq!(reason, "No such file or directory")
        }
        other => panic!("unexpected result: {:?}", other),
    }
}

#[test]
fn command_that_reports_failure_gives_its_error_text() {
    let outcome = ProcessOutcome::Finished {
        success: false,
        stdout: "partial output".to_string(),
        stderr: "Disable-PnpDevice : Access is denied\n".to_string(),
    };
    match command_result(outcome) {
        Err(PowerShellError::ScriptError(text)) => {
            assert_eq!(text, "Disable-PnpDevice : Access is denied\n")
        }
        other => panic!("unexpected result: {:?}", other),
    }
}

#[test]
fn command_that_succeeds_gives_trimmed_output() {
    let outcome = ProcessOutcome::Finished {
        success: true,
        stdout: "\r\n{\"instance_id\":\"X\"}\r\n".to_string(),
        stderr: "a warning".to_string(),
    };
    assert_eq!(command_result(outcome).unwrap(), "{\"instance_id\":\"X\"}");
}

#[test]
fn command_that_prints_nothing_gives_empty_output() {
    let outcome = ProcessOutcome::Finished {
        success: true,
        stdout: "\r\n".to_string(),
        stderr: String::new(),
    };
    assert_eq!(command_result(outcome).unwrap(), "");
}
