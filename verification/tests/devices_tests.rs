use sentinel_guard::devices::{
    disable_device, enable_device, get_connected_devices, get_dashboard_stats, is_trusted_in,
    read_records, resolve_record, resolve_records, RawRecord,
};
use sentinel_guard::models::{EventLog, LogsData, UsbDevice, WhitelistData, WhitelistEntry};
use sentinel_guard::powershell::PowerShellError;

fn store(ids: &[&str]) -> WhitelistData {
    WhitelistData {
        entries: ids
            .iter()
            .map(|id| WhitelistEntry {
                instance_id: id.to_string(),
                friendly_name: "n".to_string(),
                added_at: "t".to_string(),
            })
            .collect(),
    }
}

fn record(id: Option<&str>, name: Option<&str>, class: Option<&str>, status: Option<&str>) -> RawRecord {
    RawRecord {
        instance_id: id.map(String::from),
        friendly_name: name.map(String::from),
        device_class: class.map(String::from),
        status: status.map(String::from),
    }
}

fn plain_device(id: &str, is_trusted: bool) -> UsbDevice {
    UsbDevice {
        instance_id: id.to_string(),
        friendly_name: "n".to_string(),
        device_class: "USB".to_string(),
        status: "OK".to_string(),
        is_trusted,
    }
}

fn event(level: &str) -> EventLog {
    EventLog {
        id: "i".to_string(),
        timestamp: "t".to_string(),
        level: level.to_string(),
        message: "m".to_string(),
        device_id: None,
    }
}

#[test]
fn complete_record_resolves_as_it_is() {
    let trust = store(&["A"]);
    let device = resolve_record(
        record(Some("A"), Some("Stick"), Some("DiskDrive"), Some("Error")),
        Some(&trust),
    )
    .unwrap();
    assert_eq!(device.instance_id, "A");
    assert_eq!(device.friendly_name, "Stick");
    assert_eq!(device.device_class, "DiskDrive");
    assert_eq!(device.status, "Error");
    assert!(device.is_trusted);
}

#[test]
fn missing_fields_get_defaults() {
    let trust = store(&[]);
    let device = resolve_record(record(Some("A"), None, None, None), Some(&trust)).unwrap();
    assert_eq!(device.instance_id, "A");
    assert_eq!(device.friendly_name, "Unknown Device");
    assert_eq!(device.device_class, "USB");
    assert_eq!(device.status, "OK");
    assert!(!device.is_trusted);
}

#[test]
fn record_without_id_is_dropped() {
    let trust = store(&["A"]);
    assert!(resolve_record(record(None, Some("Stick"), Some("USB"), Some("OK")), Some(&trust)).is_none());
}

#[test]
fn record_with_empty_id_is_dropped() {
    let trust = store(&[""]);
    assert!(resolve_record(record(Some(""), Some("Stick"), Some("USB"), Some("OK")), Some(&trust)).is_none());
}

#[test]
fn failed_lookup_trusts_nothing() {
    let device = resolve_record(record(Some("A"), None, None, None), None).unwrap();
    assert!(!device.is_trusted);
    assert!(!is_trusted_in(None, "A"));
}

#[test]
fn lookup_decides_trust() {
    let trust = store(&["A", "B"]);
    assert!(is_trusted_in(Some(&trust), "A"));
    assert!(is_trusted_in(Some(&trust), "B"));
    assert!(!is_trusted_in(Some(&trust), "C"));
}

#[test]
fn inventory_of_empty_output_is_empty() {
    let trust = store(&["A"]);
    assert!(get_connected_devices("", Some(&trust)).unwrap().is_empty());
    assert!(get_connected_devices("null", Some(&trust)).unwrap().is_empty());
}

#[test]
fn inventory_of_single_object() {
    let trust = store(&[]);
    let raw = "{\"instance_id\":\"USB\\\\VID_1234\",\"friendly_name\":\"Drive\",\"device_class\":\"USB\",\"status\":\"OK\"}";
    let devices = get_connected_devices(raw, Some(&trust)).unwrap();
    assert_eq!(devices.len(), 1);
    assert_eq!(devices[0].instance_id, "USB\\VID_1234");
    assert_eq!(devices[0].friendly_name, "Drive");
    assert_eq!(devices[0].device_class, "USB");
    assert_eq!(devices[0].status, "OK");
    assert!(!devices[0].is_trusted);
}

#[test]
fn inventory_of_array_keeps_order_and_marks_trust() {
    let trust = store(&["B"]);
    let raw = "[{\"instance_id\":\"C\",\"friendly_name\":\"c\"},{\"instance_id\":\"B\",\"status\":\"Degraded\"},{\"instance_id\":\"A\"}]";
    let devices = get_connected_devices(raw, Some(&trust)).unwrap();
    let ids: Vec<&str> = devices.iter().map(|d| d.instance_id.as_str()).collect();
    assert_eq!(ids, ["C", "B", "A"]);
    let trusted: Vec<bool> = devices.iter().map(|d| d.is_trusted).collect();
    assert_eq!(trusted, [false, true, false]);
    assert_eq!(devices[0].friendly_name, "c");
    assert_eq!(devices[1].friendly_name, "Unknown Device");
    assert_eq!(devices[1].status, "Degraded");
    assert_eq!(devices[2].device_class, "USB");
    assert_eq!(devices[2].status, "OK");
}

#[test]
fn inventory_drops_records_without_identity() {
    let trust = store(&["A"]);
    let raw = "[{\"friendly_name\":\"nameless\"},{\"instance_id\":\"A\"},{\"instance_id\":\"\"},{\"instance_id\":5},17,{\"instance_id\":\"Z\"}]";
    let devices = get_connected_devices(raw, Some(&trust)).unwrap();
    let ids: Vec<&str> = devices.iter().map(|d| d.instance_id.as_str()).collect();
    assert_eq!(ids, ["A", "Z"]);
    assert!(devices[0].is_trusted);
    assert!(!devices[1].is_trusted);
}

#[test]
fn inventory_of_single_object_without_identity_is_empty() {
    let trust = store(&["A"]);
    assert!(get_connected_devices("{\"friendly_name\":\"x\"}", Some(&trust)).unwrap().is_empty());
    assert!(get_connected_devices("\"A\"", Some(&trust)).unwrap().is_empty());
}

#[test]
fn inventory_with_failed_lookup_is_untrusted() {
    let raw = "[{\"instance_id\":\"A\"},{\"instance_id\":\"B\"}]";
    let devices = get_connected_devices(raw, None).unwrap();
    assert_eq!(devices.len(), 2);
    assert!(devices.iter().all(|d| !d.is_trusted));
}

#[test]
fn inventory_of_malformed_output_is_a_parse_error() {
    let trust = store(&["A"]);
    match get_connected_devices("[{\"instance_id\":\"A\"}", Some(&trust)) {
        Err(PowerShellError::ParseError(message)) => {
            assert_eq!(message, "EOF while parsing a list at line 1 column 20")
        }
        other => panic!("unexpected result: {:?}", other),
    }
    match get_connected_devices("{oops}", None) {
        Err(PowerShellError::ParseError(message)) => {
            assert_eq!(message, "key must be a string at line 1 column 2")
        }
        other => panic!("unexpected result: {:?}", other),
    }
}

#[test]
fn records_are_read_in_order() {
    let values: Vec<serde_json::Value> =
        serde_json::from_str("[{\"instance_id\":\"A\"},{\"status\":\"OK\"},{\"instance_id\":\"B\",\"friendly_name\":\"b\"}]")
            .unwrap();
    let records = read_records(&values);
    assert_eq!(records.len(), 3);
    assert_eq!(records[0].instance_id.as_deref(), Some("A"));
    assert_eq!(records[0].status, None);
    assert_eq!(records[1].instance_id, None);
    assert_eq!(records[1].status.as_deref(), Some("OK"));
    assert_eq!(records[2].instance_id.as_deref(), Some("B"));
    assert_eq!(records[2].friendly_name.as_deref(), Some("b"));
}

#[test]
fn records_resolve_in_order_without_the_unidentified() {
    let trust = store(&["B"]);
    let records = vec![
        record(Some("C"), Some("c"), None, None),
        record(None, Some("nameless"), None, None),
        record(Some("B"), None, Some("HID"), None),
        record(Some(""), None, None, None),
        record(Some("A"), None, None, Some("Error")),
    ];
    let devices = resolve_records(records, Some(&trust));
    let ids: Vec<&str> = devices.iter().map(|d| d.instance_id.as_str()).collect();
    assert_eq!(ids, ["C", "B", "A"]);
    assert!(!devices[0].is_trusted);
    assert!(devices[1].is_trusted);
    assert!(!devices[2].is_trusted);
    assert_eq!(devices[0].friendly_name, "c");
    assert_eq!(devices[1].device_class, "HID");
    assert_eq!(devices[2].status, "Error");
}

#[test]
fn no_records_resolve_to_no_devices() {
    let trust = store(&["A"]);
    assert!(resolve_records(Vec::new(), Some(&trust)).is_empty());
    assert!(read_records(&Vec::new()).is_empty());
}

#[test]
fn disabled_device_asks_for_block_event() {
    let request = disable_device("X".to_string(), Ok(String::new())).unwrap();
    assert_eq!(request.level, "BLOCK");
    assert_eq!(request.message, "Device blocked: X");
    assert_eq!(request.device_id.as_deref(), Some("X"));
}

#[test]
fn enabled_device_asks_for_info_event() {
    let request = enable_device("X".to_string(), Ok("done".to_string())).unwrap();
    assert_eq!(request.level, "INFO");
    assert_eq!(request.message, "Device enabled: X");
    assert_eq!(request.device_id.as_deref(), Some("X"));
}

#[test]
fn failed_disable_gives_failure_and_no_event() {
    let attempt = Err(PowerShellError::ScriptError("Access is denied".to_string()));
    match disable_device("X".to_string(), attempt) {
        Err(PowerShellError::ScriptError(text)) => assert_eq!(text, "Access is denied"),
        other => panic!("unexpected result: {:?}", other),
    }
}

#[test]
fn failed_enable_gives_failure_and_no_event() {
    let attempt = Err(PowerShellError::ExecutionFailed("not found".to_string()));
    match enable_device("X".to_string(), attempt) {
        Err(PowerShellError::ExecutionFailed(text)) => assert_eq!(text, "not found"),
        other => panic!("unexpected result: {:?}", other),
    }
}

#[test]
fn dashboard_counts_devices_and_events() {
    let devices = vec![
        plain_device("A", true),
        plain_device("B", false),
        plain_device("C", true),
        plain_device("D", false),
        plain_device("E", false),
    ];
    let logs = LogsData {
        events: vec![event("INFO"), event("BLOCK"), event("WARN"), event("BLOCK")],
    };
    let stats = get_dashboard_stats(&devices, &logs);
    assert_eq!(stats.total_devices, 5);
    assert_eq!(stats.trusted_devices, 2);
    assert_eq!(stats.blocked_devices, 3);
    assert_eq!(stats.total_scans, 4);
    assert_eq!(stats.blocked_threats, 2);
    assert!(!stats.is_secure);
}

#[test]
fn dashboard_is_secure_without_untrusted_devices() {
    let devices = vec![plain_device("A", true), plain_device("B", true)];
    let stats = get_dashboard_stats(&devices, &LogsData::default());
    assert_eq!(stats.total_devices, 2);
    assert_eq!(stats.trusted_devices, 2);
    assert_eq!(stats.blocked_devices, 0);
    assert_eq!(stats.total_scans, 0);
    assert_eq!(stats.blocked_threats, 0);
    assert!(stats.is_secure);
}

#[test]
fn dashboard_of_nothing_is_secure() {
    let stats = get_dashboard_stats(&Vec::new(), &LogsData::default());
    assert_eq!(stats.total_devices, 0);
    assert!(stats.is_secure);
}

#[test]
fn device_clone_keeps_fields() {
    let copy = plain_device("A", true).clone();
    assert_eq!(copy.instance_id, "A");
    assert_eq!(copy.friendly_name, "n");
    assert_eq!(copy.device_class, "USB");
    assert_eq!(copy.status, "OK");
    assert!(copy.is_trusted);
}
