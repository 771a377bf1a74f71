//! The device inventory: what the device query printed, resolved against the
//! trust store, and the figures of the dashboard.
//!
//! The inventory is a function of two things, the output of the query and a
//! snapshot of the trust store. It keeps the order of the output, and it never
//! calls a device trusted that the snapshot does not hold.

use crate::logs::{count_level, get_log_stats, AuditRequest, RequestModel, LEVEL_BLOCK, LEVEL_INFO};
use crate::models::{DashboardStats, DeviceModel, EntryModel, LogsData, UsbDevice, WhitelistData};
use crate::normalizer::{members_of, normalize, normalized, string_member, string_members};
use crate::powershell::{FailureModel, PowerShellError};
use crate::whitelist::{holds, is_device_trusted};
use vstd::prelude::*;
use vstd::string::*;

verus! {

/// The member of a record that holds the instance id of the device.
pub const FIELD_INSTANCE_ID: &'static str = "instance_id";

/// The member of a record that holds the display name of the device.
pub const FIELD_FRIENDLY_NAME: &'static str = "friendly_name";

/// The member of a record that holds the class of the device.
pub const FIELD_DEVICE_CLASS: &'static str = "device_class";

/// The member of a record that holds the status of the device.
pub const FIELD_STATUS: &'static str = "status";

/// The display name of a device whose record gives none.
pub const DEFAULT_FRIENDLY_NAME: &'static str = "Unknown Device";

/// The class of a device whose record gives none.
pub const DEFAULT_DEVICE_CLASS: &'static str = "USB";

/// The status of a device whose record gives none.
pub const DEFAULT_STATUS: &'static str = "OK";

/// The model of a [`RawRecord`].
pub struct RecordModel {
    pub instance_id: Option<Seq<char>>,
    pub friendly_name: Option<Seq<char>>,
    pub device_class: Option<Seq<char>>,
    pub status: Option<Seq<char>>,
}

/// What one record of the device query says of a device. A field is `None`
/// where the record has no such member, or has one that is not text.
#[derive(Debug)]
pub struct RawRecord {
    pub instance_id: Option<String>,
    pub friendly_name: Option<String>,
    pub device_class: Option<String>,
    pub status: Option<String>,
}

impl View for RawRecord {
    type V = RecordModel;

    open spec fn view(&self) -> RecordModel {
        RecordModel {
            instance_id: self.instance_id.deep_view(),
            friendly_name: self.friendly_name.deep_view(),
            device_class: self.device_class.deep_view(),
            status: self.status.deep_view(),
        }
    }
}

impl DeepView for RawRecord {
    type V = RecordModel;

    open spec fn deep_view(&self) -> RecordModel {
        self@
    }
}

/// The text of the member `name`, if there is one.
pub open spec fn member(members: Map<Seq<char>, Seq<char>>, name: Seq<char>) -> Option<Seq<char>> {
    if members.contains_key(name) {
        Some(members[name])
    } else {
        None
    }
}

/// What a record with the string members `members` says of a device.
pub open spec fn record_of(members: Map<Seq<char>, Seq<char>>) -> RecordModel {
    RecordModel {
        instance_id: member(members, FIELD_INSTANCE_ID@),
        friendly_name: member(members, FIELD_FRIENDLY_NAME@),
        device_class: member(members, FIELD_DEVICE_CLASS@),
        status: member(members, FIELD_STATUS@),
    }
}

/// The snapshot that a lookup of the trust store gave, or `None` where the
/// lookup failed.
pub open spec fn snapshot(lookup: Option<&WhitelistData>) -> Option<Seq<EntryModel>> {
    match lookup {
        Some(data) => Some(data@),
        None => None,
    }
}

/// Whether a device counts as trusted: the snapshot holds it. With no
/// snapshot, no device does.
pub open spec fn trusted_in(lookup: Option<Seq<EntryModel>>, id: Seq<char>) -> bool {
    match lookup {
        Some(store) => holds(store, id),
        None => false,
    }
}

/// A field of a record, or its default.
pub open spec fn or_default(field: Option<Seq<char>>, default: Seq<char>) -> Seq<char> {
    match field {
        Some(text) => text,
        None => default,
    }
}

/// The device that a record stands for: none where the record has no
/// instance id or an empty one; otherwise the device with that id, with each
/// missing descriptive field at its default, trusted as the snapshot says.
pub open spec fn resolved(record: RecordModel, lookup: Option<Seq<EntryModel>>) -> Option<
    DeviceModel,
> {
    match record.instance_id {
        Some(id) => if id.len() == 0 {
            None
        } else {
            Some(
                DeviceModel {
                    instance_id: id,
                    friendly_name: or_default(record.friendly_name, DEFAULT_FRIENDLY_NAME@),
                    device_class: or_default(record.device_class, DEFAULT_DEVICE_CLASS@),
                    status: or_default(record.status, DEFAULT_STATUS@),
                    is_trusted: trusted_in(lookup, id),
                },
            )
        },
        None => None,
    }
}

/// What each of a sequence of records says of a device.
pub open spec fn records_of(members: Seq<Map<Seq<char>, Seq<char>>>) -> Seq<RecordModel> {
    members.map_values(|one: Map<Seq<char>, Seq<char>>| record_of(one))
}

/// The device of a record, given a snapshot of the trust store.
pub open spec fn resolver(lookup: Option<Seq<EntryModel>>) -> spec_fn(RecordModel) -> Option<
    DeviceModel,
> {
    |record: RecordModel| resolved(record, lookup)
}

/// The inventory that a sequence of records gives: the device of each record
/// that stands for one, in the order of the records.
pub open spec fn inventory(records: Seq<RecordModel>, lookup: Option<Seq<EntryModel>>) -> Seq<
    DeviceModel,
> {
    records.filter_map(resolver(lookup))
}

/// Whether a device is trusted.
pub open spec fn is_trusted() -> spec_fn(DeviceModel) -> bool {
    |device: DeviceModel| device.is_trusted
}

/// Whether a device is not trusted.
pub open spec fn is_untrusted() -> spec_fn(DeviceModel) -> bool {
    |device: DeviceModel| !device.is_trusted
}

/// The event that follows a device being disabled.
pub open spec fn block_audit(id: Seq<char>) -> RequestModel {
    RequestModel {
        level: LEVEL_BLOCK@,
        message: "Device blocked: "@ + id,
        device_id: Some(id),
    }
}

/// The event that follows a device being enabled.
pub open spec fn enable_audit(id: Seq<char>) -> RequestModel {
    RequestModel {
        level: LEVEL_INFO@,
        message: "Device enabled: "@ + id,
        device_id: Some(id),
    }
}

/// Takes from a record the four fields that describe a device.
pub fn read_record(value: &serde_json::Value) -> (record: RawRecord)
    ensures
        record@ == record_of(string_members(*value)),
{
    RawRecord {
        instance_id: string_member(value, FIELD_INSTANCE_ID),
        friendly_name: string_member(value, FIELD_FRIENDLY_NAME),
        device_class: string_member(value, FIELD_DEVICE_CLASS),
        status: string_member(value, FIELD_STATUS),
    }
}

/// Whether a device counts as trusted, given what the lookup of the trust
/// store came to: a failed lookup trusts nothing.
pub fn is_trusted_in(lookup: Option<&WhitelistData>, instance_id: &str) -> (trusted: bool)
    ensures
        trusted == trusted_in(snapshot(lookup), instance_id@),
{
    match lookup {
        Some(data) => is_device_trusted(data, instance_id),
        None => false,
    }
}

/// A field of a record, or a default where the record lacks it.
fn field_or(field: Option<String>, default: &str) -> (text: String)
    ensures
        text@ == or_default(field.deep_view(), default@),
{
    match field {
        Some(text) => text,
        None => default.to_string(),
    }
}

/// The device that a record stands for, if it stands for one. A record
/// without a usable instance id stands for none; a missing name, class or
/// status is filled in.
pub fn resolve_record(record: RawRecord, lookup: Option<&WhitelistData>) -> (device: Option<
    UsbDevice,
>)
    ensures
        device.deep_view() == resolved(record@, snapshot(lookup)),
{
    match record.instance_id {
        Some(instance_id) => {
            if instance_id.as_str().is_empty() {
                None
            } else {
                let is_trusted = is_trusted_in(lookup, instance_id.as_str());
                Some(
                    UsbDevice {
                        instance_id,
                        friendly_name: field_or(record.friendly_name, DEFAULT_FRIENDLY_NAME),
                        device_class: field_or(record.device_class, DEFAULT_DEVICE_CLASS),
                        status: field_or(record.status, DEFAULT_STATUS),
                        is_trusted,
                    },
                )
            }
        },
        None => None,
    }
}

/// Takes from each decoded record the four fields that describe a device,
/// in the order of the records.
pub fn read_records(values: &Vec<serde_json::Value>) -> (records: Vec<RawRecord>)
    ensures
        records.deep_view() == records_of(members_of(values@)),
{
    let mut records: Vec<RawRecord> = Vec::new();
    let mut i: usize = 0;
    while i < values.len()
        invariant
            i <= values.len(),
            records.len() == i,
            forall|j: int|
                0 <= j < i ==> (#[trigger] records[j])@ == record_of(string_members(values[j])),
        decreases values.len() - i,
    {
        records.push(read_record(&values[i]));
        i = i + 1;
    }
    records
}

/// The inventory that a sequence of records gives, resolved against what the
/// lookup of the trust store came to: the device of each record that stands
/// for one, in the order of the records.
pub fn resolve_records(records: Vec<RawRecord>, lookup: Option<&WhitelistData>) -> (devices: Vec<
    UsbDevice,
>)
    ensures
        devices.deep_view() == inventory(records.deep_view(), snapshot(lookup)),
        devices.len() <= records.len(),
        forall|i: int|
            0 <= i < devices.len() ==> {
                &&& (#[trigger] devices[i])@.instance_id.len() > 0
                &&& devices[i]@.is_trusted == trusted_in(
                    snapshot(lookup),
                    devices[i]@.instance_id,
                )
            },
{
    let mut devices: Vec<UsbDevice> = Vec::new();
    let ghost all = records.deep_view();
    let ghost trust = snapshot(lookup);
    for record in it: records
        invariant
            all == records.deep_view(),
            trust == snapshot(lookup),
            it.seq() == records@,
            devices.deep_view() == inventory(all.take(it.index()), trust),
            devices.len() <= it.index(),
    {
        proof {
            all.lemma_filter_map_take_succ(resolver(trust), it.index());
        }
        if let Some(device) = resolve_record(record, lookup) {
            devices.push(device);
        }
    }
    assert(all.take(all.len() as int) =~= all);
    proof {
        lemma_inventory_is_resolved(all, trust);
        assert forall|k: int| 0 <= k < devices.len() implies {
            &&& (#[trigger] devices[k])@.instance_id.len() > 0
            &&& devices[k]@.is_trusted == trusted_in(trust, devices[k]@.instance_id)
        } by {
            assert(devices.deep_view()[k] == devices[k]@);
        }
    }
    devices
}

/// The inventory that the output of the device query gives, resolved against
/// what the lookup of the trust store came to. The output is normalized, each
/// record is read and resolved, and the devices come in the order of the
/// output. An output that does not decode gives `ParseError` with the message
/// of the decoder, and no inventory.
pub fn get_connected_devices(raw: &str, lookup: Option<&WhitelistData>) -> (outcome: Result<
    Vec<UsbDevice>,
    PowerShellError,
>)
    ensures
        match outcome {
            Ok(devices) => {
                &&& normalized(raw@) is Ok
                &&& devices.deep_view() == inventory(
                    records_of(normalized(raw@)->Ok_0),
                    snapshot(lookup),
                )
                &&& forall|i: int|
                    0 <= i < devices.len() ==> {
                        &&& (#[trigger] devices[i])@.instance_id.len() > 0
                        &&& devices[i]@.is_trusted == trusted_in(
                            snapshot(lookup),
                            devices[i]@.instance_id,
                        )
                    }
            },
            Err(failure) => {
                &&& normalized(raw@) is Err
                &&& failure@ == FailureModel::ParseError(normalized(raw@)->Err_0)
            },
        },
{
    match normalize(raw) {
        Ok(values) => Ok(resolve_records(read_records(&values), lookup)),
        Err(failure) => Err(failure),
    }
}

/// Decides what follows an attempt to enable a device at the driver level:
/// after a success, the event to log; after a failure, the failure itself and
/// no event.
pub fn enable_device(instance_id: String, attempt: Result<String, PowerShellError>) -> (outcome:
    Result<AuditRequest, PowerShellError>)
    ensures
        match attempt {
            Ok(_) => outcome is Ok && outcome->Ok_0@ == enable_audit(instance_id@),
            Err(failure) => outcome is Err && outcome->Err_0@ == failure@,
        },
{
    match attempt {
        Ok(_) => Ok(
            AuditRequest {
                level: LEVEL_INFO.to_string(),
                message: "Device enabled: ".to_string().concat(instance_id.as_str()),
                device_id: Some(instance_id),
            },
        ),
        Err(failure) => Err(failure),
    }
}

/// Decides what follows an attempt to disable a device at the driver level:
/// after a success, the event to log, at level `BLOCK` whether or not the
/// device was trusted; after a failure, the failure itself and no event.
pub fn disable_device(instance_id: String, attempt: Result<String, PowerShellError>) -> (outcome:
    Result<AuditRequest, PowerShellError>)
    ensures
        match attempt {
            Ok(_) => outcome is Ok && outcome->Ok_0@ == block_audit(instance_id@),
            Err(failure) => outcome is Err && outcome->Err_0@ == failure@,
        },
{
    match attempt {
        Ok(_) => Ok(
            AuditRequest {
                level: LEVEL_BLOCK.to_string(),
                message: "Device blocked: ".to_string().concat(instance_id.as_str()),
                device_id: Some(instance_id),
            },
        ),
        Err(failure) => Err(failure),
    }
}

/// The figures of the dashboard: how many devices are connected, how many of
/// them are trusted and how many are not, how many events the audit log holds
/// and how many of them are at level `BLOCK`. The host counts as secure
/// exactly when no connected device is untrusted.
pub fn get_dashboard_stats(devices: &Vec<UsbDevice>, logs: &LogsData) -> (stats: DashboardStats)
    ensures
        stats.total_devices == devices.len(),
        stats.trusted_devices == devices.deep_view().filter(is_trusted()).len(),
        stats.blocked_devices == devices.deep_view().filter(is_untrusted()).len(),
        stats.trusted_devices + stats.blocked_devices == stats.total_devices,
        stats.total_scans == logs@.len(),
        stats.blocked_threats == count_level(logs@, LEVEL_BLOCK@),
        stats.is_secure == (stats.blocked_devices == 0),
        stats.is_secure <==> forall|i: int| 0 <= i < devices.len() ==> (#[trigger] devices[i]).is_trusted,
{
    let ghost all = devices.deep_view();
    let mut trusted: usize = 0;
    let mut blocked: usize = 0;
    let mut i: usize = 0;
    while i < devices.len()
        invariant
            i <= devices.len(),
            all == devices.deep_view(),
            trusted == all.take(i as int).filter(is_trusted()).len(),
            blocked == all.take(i as int).filter(is_untrusted()).len(),
            trusted + blocked == i,
            blocked == 0 <==> forall|j: int| 0 <= j < i ==> (#[trigger] devices[j]).is_trusted,
        decreases devices.len() - i,
    {
        proof {
            let seen = all.take(i as int);
            assert(all.take(i + 1) =~= seen.push(devices[i as int]@));
            seen.lemma_filter_push(devices[i as int]@, is_trusted());
            seen.lemma_filter_push(devices[i as int]@, is_untrusted());
        }
        if devices[i].is_trusted {
            trusted = trusted + 1;
        } else {
            blocked = blocked + 1;
        }
        i = i + 1;
    }
    assert(all.take(i as int) =~= all);
    let events = get_log_stats(logs);
    DashboardStats {
        total_devices: devices.len(),
        trusted_devices: trusted,
        blocked_devices: blocked,
        total_scans: events.total,
        blocked_threats: events.block,
        is_secure: blocked == 0,
    }
}

/// Every device of an inventory has an instance id, and is trusted exactly
/// when the snapshot of the trust store holds that id; with no snapshot none
/// is trusted. The inventory has no more devices than there are records.
pub proof fn lemma_inventory_is_resolved(
    records: Seq<RecordModel>,
    lookup: Option<Seq<EntryModel>>,
)
    ensures
        inventory(records, lookup).len() <= records.len(),
        forall|i: int|
            0 <= i < inventory(records, lookup).len() ==> {
                let device = #[trigger] inventory(records, lookup)[i];
                &&& device.instance_id.len() > 0
                &&& device.is_trusted == trusted_in(lookup, device.instance_id)
                &&& lookup is None ==> !device.is_trusted
            },
    decreases records.len(),
{
    if records.len() > 0 {
        lemma_inventory_is_resolved(records.drop_last(), lookup);
    }
}

} // verus!
