//! The records of the trust and audit subsystem, each with its mathematical model.
//!
//! Every record type has a view (`@`): a value made of sequences of characters,
//! over which the contracts of the other modules are stated.

use vstd::prelude::*;

verus! {

/// The model of a [`UsbDevice`].
pub struct DeviceModel {
    pub instance_id: Seq<char>,
    pub friendly_name: Seq<char>,
    pub device_class: Seq<char>,
    pub status: Seq<char>,
    pub is_trusted: bool,
}

/// A connected USB device, as one inventory query saw it.
///
/// `is_trusted` is never stored: each query computes it anew from the trust
/// store.
#[derive(Debug)]
pub struct UsbDevice {
    pub instance_id: String,
    pub friendly_name: String,
    pub device_class: String,
    pub status: String,
    pub is_trusted: bool,
}

impl View for UsbDevice {
    type V = DeviceModel;

    open spec fn view(&self) -> DeviceModel {
        DeviceModel {
            instance_id: self.instance_id@,
            friendly_name: self.friendly_name@,
            device_class: self.device_class@,
            status: self.status@,
            is_trusted: self.is_trusted,
        }
    }
}

impl DeepView for UsbDevice {
    type V = DeviceModel;

    open spec fn deep_view(&self) -> DeviceModel {
        self@
    }
}

impl Clone for UsbDevice {
    fn clone(&self) -> (copy: Self)
        ensures
            copy@ == self@,
    {
        UsbDevice {
            instance_id: self.instance_id.clone(),
            friendly_name: self.friendly_name.clone(),
            device_class: self.device_class.clone(),
            status: self.status.clone(),
            is_trusted: self.is_trusted,
        }
    }
}

/// The model of a [`WhitelistEntry`].
pub struct EntryModel {
    pub instance_id: Seq<char>,
    pub friendly_name: Seq<char>,
    pub added_at: Seq<char>,
}

/// One authorized device in the trust store.
///
/// `friendly_name` is the name the device showed when it was authorized, and
/// `added_at` the time of the authorization.
#[derive(Debug)]
pub struct WhitelistEntry {
    pub instance_id: String,
    pub friendly_name: String,
    pub added_at: String,
}

impl View for WhitelistEntry {
    type V = EntryModel;

    open spec fn view(&self) -> EntryModel {
        EntryModel {
            instance_id: self.instance_id@,
            friendly_name: self.friendly_name@,
            added_at: self.added_at@,
        }
    }
}

impl DeepView for WhitelistEntry {
    type V = EntryModel;

    open spec fn deep_view(&self) -> EntryModel {
        self@
    }
}

impl Clone for WhitelistEntry {
    fn clone(&self) -> (copy: Self)
        ensures
            copy@ == self@,
    {
        WhitelistEntry {
            instance_id: self.instance_id.clone(),
            friendly_name: self.friendly_name.clone(),
            added_at: self.added_at.clone(),
        }
    }
}

/// The model of an [`EventLog`].
pub struct EventModel {
    pub id: Seq<char>,
    pub timestamp: Seq<char>,
    pub level: Seq<char>,
    pub message: Seq<char>,
    pub device_id: Option<Seq<char>>,
}

/// One entry of the audit log.
///
/// `level` is free text; the subsystem itself writes `INFO`, `WARN`, `BLOCK`
/// and `ERROR` only.
#[derive(Debug)]
pub struct EventLog {
    pub id: String,
    pub timestamp: String,
    pub level: String,
    pub message: String,
    pub device_id: Option<String>,
}

impl View for EventLog {
    type V = EventModel;

    open spec fn view(&self) -> EventModel {
        EventModel {
            id: self.id@,
            timestamp: self.timestamp@,
            level: self.level@,
            message: self.message@,
            device_id: self.device_id.deep_view(),
        }
    }
}

impl DeepView for EventLog {
    type V = EventModel;

    open spec fn deep_view(&self) -> EventModel {
        self@
    }
}

impl Clone for EventLog {
    fn clone(&self) -> (copy: Self)
        ensures
            copy@ == self@,
    {
        EventLog {
            id: self.id.clone(),
            timestamp: self.timestamp.clone(),
            level: self.level.clone(),
            message: self.message.clone(),
            device_id: clone_text_option(&self.device_id),
        }
    }
}

/// The trust store: the devices that the operator has authorized, oldest
/// authorization first. Its model is the sequence of its entries.
#[derive(Debug)]
pub struct WhitelistData {
    pub entries: Vec<WhitelistEntry>,
}

impl View for WhitelistData {
    type V = Seq<EntryModel>;

    open spec fn view(&self) -> Seq<EntryModel> {
        self.entries.deep_view()
    }
}

impl Default for WhitelistData {
    /// The empty trust store.
    fn default() -> (data: Self)
        ensures
            data@ == Seq::<EntryModel>::empty(),
    {
        WhitelistData { entries: Vec::new() }
    }
}

/// The audit log: the recorded events, oldest first. Its model is the
/// sequence of its events.
#[derive(Debug)]
pub struct LogsData {
    pub events: Vec<EventLog>,
}

impl View for LogsData {
    type V = Seq<EventModel>;

    open spec fn view(&self) -> Seq<EventModel> {
        self.events.deep_view()
    }
}

impl Default for LogsData {
    /// The empty audit log.
    fn default() -> (data: Self)
        ensures
            data@ == Seq::<EventModel>::empty(),
    {
        LogsData { events: Vec::new() }
    }
}

/// The security posture at one moment, derived from an inventory and the
/// audit log and stored nowhere.
#[derive(Debug, Clone, Copy, PartialEq, Eq, Structural)]
pub struct DashboardStats {
    /// The devices connected.
    pub total_devices: usize,
    /// Those of them that the trust store holds.
    pub trusted_devices: usize,
    /// Those of them that it does not hold.
    pub blocked_devices: usize,
    /// The events in the audit log.
    pub total_scans: usize,
    /// Those of them at level `BLOCK`.
    pub blocked_threats: usize,
    /// Whether every connected device is trusted.
    pub is_secure: bool,
}

/// A copy of an optional text.
fn clone_text_option(text: &Option<String>) -> (copy: Option<String>)
    ensures
        copy.deep_view() == text.deep_view(),
{
    match text {
        Some(s) => Some(s.clone()),
        None => None,
    }
}

} // verus!
