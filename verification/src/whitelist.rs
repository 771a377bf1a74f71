//! The trust store: the devices that the operator has authorized.
//!
//! A device is trusted exactly when the store holds an entry with its
//! instance id. The operations here change a store that the caller has read
//! and will write back; each returns the audit event that its change calls
//! for, if it made one.

use crate::logs::{AuditRequest, RequestModel, LEVEL_INFO, LEVEL_WARN};
use crate::models::{DeviceModel, EntryModel, UsbDevice, WhitelistData, WhitelistEntry};
use vstd::prelude::*;
use vstd::string::*;

verus! {

/// The name of the document that stores the trust store.
pub const WHITELIST_FILE: &'static str = "whitelist.json";

/// Whether `store` has an entry for the device `id`.
pub open spec fn holds(store: Seq<EntryModel>, id: Seq<char>) -> bool {
    exists|i: int| 0 <= i < store.len() && (#[trigger] store[i]).instance_id == id
}

/// The invariant of a trust store: no two entries for one device.
pub open spec fn distinct_ids(store: Seq<EntryModel>) -> bool {
    forall|i: int, j: int|
        0 <= i < j < store.len() ==> (#[trigger] store[i]).instance_id != (
        #[trigger] store[j]).instance_id
}

/// The entry that authorizes `device` at the time `added_at`.
pub open spec fn entry_for(device: DeviceModel, added_at: Seq<char>) -> EntryModel {
    EntryModel {
        instance_id: device.instance_id,
        friendly_name: device.friendly_name,
        added_at,
    }
}

/// The store after `device` was authorized at the time `added_at`: unchanged
/// where it held the device, else with a new entry at its end.
pub open spec fn authorized(
    store: Seq<EntryModel>,
    device: DeviceModel,
    added_at: Seq<char>,
) -> Seq<EntryModel> {
    if holds(store, device.instance_id) {
        store
    } else {
        store.push(entry_for(device, added_at))
    }
}

/// The event that authorizing `device` calls for: one at level `INFO` where
/// the store did not hold the device, none where it did.
pub open spec fn authorize_audit(store: Seq<EntryModel>, device: DeviceModel) -> Option<
    RequestModel,
> {
    if holds(store, device.instance_id) {
        None
    } else {
        Some(
            RequestModel {
                level: LEVEL_INFO@,
                message: "Device trusted: "@ + device.friendly_name,
                device_id: Some(device.instance_id),
            },
        )
    }
}

/// Whether an entry is for another device than `id`.
pub open spec fn other_than(id: Seq<char>) -> spec_fn(EntryModel) -> bool {
    |entry: EntryModel| entry.instance_id != id
}

/// The store after the device `id` was revoked: the entries for other
/// devices, in their order.
pub open spec fn revoked(store: Seq<EntryModel>, id: Seq<char>) -> Seq<EntryModel> {
    store.filter(other_than(id))
}

/// The event that revoking the device `id` calls for: one at level `WARN`
/// where the store held the device, none where it did not.
pub open spec fn revoke_audit(store: Seq<EntryModel>, id: Seq<char>) -> Option<RequestModel> {
    if holds(store, id) {
        Some(
            RequestModel {
                level: LEVEL_WARN@,
                message: "Device removed from whitelist: "@ + id,
                device_id: Some(id),
            },
        )
    } else {
        None
    }
}

/// The event that clearing the store calls for, whatever the store held.
pub open spec fn clear_audit() -> RequestModel {
    RequestModel { level: LEVEL_WARN@, message: "Whitelist cleared"@, device_id: None }
}

/// Reads the clock with `chrono::Utc::now` and prints date and time as RFC
/// 3339 text with `DateTime::to_rfc3339`. Nothing is claimed of the text.
#[verifier::external_body]
fn authorization_time() -> String {
    chrono::Utc::now().to_rfc3339()
}

/// The entries of the store, oldest authorization first.
pub fn get_whitelist(data: WhitelistData) -> (entries: Vec<WhitelistEntry>)
    ensures
        entries.deep_view() == data@,
{
    data.entries
}

/// Whether the store holds the device `instance_id`.
pub fn is_device_trusted(data: &WhitelistData, instance_id: &str) -> (trusted: bool)
    ensures
        trusted == holds(data@, instance_id@),
{
    let wanted = instance_id.to_owned();
    let mut i: usize = 0;
    while i < data.entries.len()
        invariant
            i <= data.entries.len(),
            data@.len() == data.entries.len(),
            wanted@ == instance_id@,
            forall|j: int| 0 <= j < i ==> (#[trigger] data@[j]).instance_id != instance_id@,
        decreases data.entries.len() - i,
    {
        if data.entries[i].instance_id == wanted {
            assert(data@[i as int].instance_id == instance_id@);
            return true;
        }
        i = i + 1;
    }
    false
}

/// Authorizes a device at a time that the caller supplies. Where the store
/// holds the device already, nothing changes and nothing is to be logged;
/// otherwise an entry with the device's id and name joins the end of the
/// store, and the result is the event to log.
pub fn authorize(data: &mut WhitelistData, device: &UsbDevice, added_at: String) -> (request:
    Option<AuditRequest>)
    ensures
        final(data)@ == authorized(old(data)@, device@, added_at@),
        request.deep_view() == authorize_audit(old(data)@, device@),
        distinct_ids(old(data)@) ==> distinct_ids(final(data)@),
{
    if is_device_trusted(data, device.instance_id.as_str()) {
        return None;
    }
    let entry = WhitelistEntry {
        instance_id: device.instance_id.clone(),
        friendly_name: device.friendly_name.clone(),
        added_at,
    };
    data.entries.push(entry);
    Some(
        AuditRequest {
            level: LEVEL_INFO.to_string(),
            message: "Device trusted: ".to_string().concat(device.friendly_name.as_str()),
            device_id: Some(device.instance_id.clone()),
        },
    )
}

/// Authorizes a device now. The store and the result are those of
/// [`authorize`] at the current time, which is read only where an entry is
/// made.
pub fn add_to_whitelist(data: &mut WhitelistData, device: UsbDevice) -> (request: Option<
    AuditRequest,
>)
    ensures
        exists|added_at: Seq<char>| final(data)@ == authorized(old(data)@, device@, added_at),
        holds(old(data)@, device@.instance_id) ==> final(data)@ == old(data)@,
        request.deep_view() == authorize_audit(old(data)@, device@),
        distinct_ids(old(data)@) ==> distinct_ids(final(data)@),
{
    if is_device_trusted(data, device.instance_id.as_str()) {
        assert(data@ == authorized(data@, device@, Seq::<char>::empty()));
        return None;
    }
    let added_at = authorization_time();
    authorize(data, &device, added_at)
}

/// Revokes a device: every entry for it leaves the store, the others keep
/// their order. The result is the event to log where an entry left, and
/// nothing where the store did not hold the device, which it then leaves as
/// it was.
pub fn remove_from_whitelist(data: &mut WhitelistData, instance_id: String) -> (request: Option<
    AuditRequest,
>)
    ensures
        final(data)@ == revoked(old(data)@, instance_id@),
        request.deep_view() == revoke_audit(old(data)@, instance_id@),
        !holds(old(data)@, instance_id@) ==> final(data)@ == old(data)@,
        !holds(final(data)@, instance_id@),
        distinct_ids(old(data)@) ==> distinct_ids(final(data)@),
{
    let mut kept: Vec<WhitelistEntry> = Vec::new();
    let mut i: usize = 0;
    while i < data.entries.len()
        invariant
            i <= data.entries.len(),
            data@.len() == data.entries.len(),
            data@ == old(data)@,
            kept.deep_view() == revoked(data@.take(i as int), instance_id@),
        decreases data.entries.len() - i,
    {
        let entry = &data.entries[i];
        proof {
            let seen = data@.take(i as int);
            assert(data@.take(i + 1) =~= seen.push(entry@));
            seen.lemma_filter_push(entry@, other_than(instance_id@));
        }
        if entry.instance_id != instance_id {
            kept.push(entry.clone());
        }
        i = i + 1;
    }
    assert(data@.take(i as int) =~= data@);
    let removed = kept.len() != data.entries.len();
    proof {
        lemma_revoked(old(data)@, instance_id@);
    }
    data.entries = kept;
    if removed {
        Some(
            AuditRequest {
                level: LEVEL_WARN.to_string(),
                message: "Device removed from whitelist: ".to_string().concat(
                    instance_id.as_str(),
                ),
                device_id: Some(instance_id),
            },
        )
    } else {
        None
    }
}

/// Empties the store. The result is the event to log, which is the same
/// whether or not the store held anything.
pub fn clear_whitelist(data: &mut WhitelistData) -> (request: AuditRequest)
    ensures
        final(data)@ == Seq::<EntryModel>::empty(),
        request@ == clear_audit(),
        distinct_ids(final(data)@),
{
    data.entries = Vec::new();
    AuditRequest {
        level: LEVEL_WARN.to_string(),
        message: "Whitelist cleared".to_string(),
        device_id: None,
    }
}

/// A store with one more entry holds what it held, and the device of the new
/// entry.
pub proof fn lemma_holds_push(store: Seq<EntryModel>, entry: EntryModel, id: Seq<char>)
    ensures
        holds(store.push(entry), id) <==> holds(store, id) || entry.instance_id == id,
{
    let longer = store.push(entry);
    if holds(store, id) {
        let i = choose|i: int| 0 <= i < store.len() && (#[trigger] store[i]).instance_id == id;
        assert(longer[i].instance_id == id);
    }
    if entry.instance_id == id {
        assert(longer[store.len() as int].instance_id == id);
    }
    if holds(longer, id) && entry.instance_id != id {
        let i = choose|i: int| 0 <= i < longer.len() && (#[trigger] longer[i]).instance_id == id;
        assert(store[i].instance_id == id);
    }
}

/// A store with one more entry is without doubles exactly when it was so
/// before and did not hold the device of the new entry.
pub proof fn lemma_distinct_push(store: Seq<EntryModel>, entry: EntryModel)
    ensures
        distinct_ids(store.push(entry)) <==> distinct_ids(store) && !holds(
            store,
            entry.instance_id,
        ),
{
    let longer = store.push(entry);
    if distinct_ids(longer) {
        assert forall|i: int, j: int| 0 <= i < j < store.len() implies (#[trigger] store[i]).instance_id
            != (#[trigger] store[j]).instance_id by {
            assert(longer[i].instance_id != longer[j].instance_id);
        }
        if holds(store, entry.instance_id) {
            let i = choose|i: int|
                0 <= i < store.len() && (#[trigger] store[i]).instance_id == entry.instance_id;
            assert(longer[i].instance_id != longer[store.len() as int].instance_id);
        }
    }
    if distinct_ids(store) && !holds(store, entry.instance_id) {
        assert forall|i: int, j: int| 0 <= i < j < longer.len() implies (#[trigger] longer[i]).instance_id
            != (#[trigger] longer[j]).instance_id by {
            if j < store.len() {
                assert(store[i].instance_id != store[j].instance_id);
            } else {
                assert(store[i].instance_id != entry.instance_id);
            }
        }
    }
}

/// What revoking does to a store: the device is gone, every other device
/// stays, the store shrinks exactly where it held the device, and a store
/// without doubles stays without.
pub proof fn lemma_revoked(store: Seq<EntryModel>, id: Seq<char>)
    ensures
        !holds(revoked(store, id), id),
        forall|other: Seq<char>|
            other != id ==> (#[trigger] holds(revoked(store, id), other) <==> holds(store, other)),
        revoked(store, id).len() <= store.len(),
        revoked(store, id).len() == store.len() <==> !holds(store, id),
        !holds(store, id) ==> revoked(store, id) == store,
        distinct_ids(store) ==> distinct_ids(revoked(store, id)),
    decreases store.len(),
{
    reveal(Seq::filter);
    if store.len() > 0 {
        let rest = store.drop_last();
        let last = store.last();
        let kept = revoked(rest, id);
        assert(store =~= rest.push(last));
        lemma_revoked(rest, id);
        rest.lemma_filter_push(last, other_than(id));
        lemma_holds_push(rest, last, id);
        lemma_holds_push(kept, last, id);
        lemma_holds_push(kept, last, last.instance_id);
        lemma_distinct_push(rest, last);
        lemma_distinct_push(kept, last);
        assert forall|other: Seq<char>| other != id implies (#[trigger] holds(
            revoked(store, id),
            other,
        ) <==> holds(store, other)) by {
            lemma_holds_push(rest, last, other);
            lemma_holds_push(kept, last, other);
        }
    }
}

/// Membership decides trust: after a device was authorized the store holds
/// it; after it was revoked the store does not; and neither changes whether
/// the store holds another device.
pub proof fn lemma_trust_follows_membership(
    store: Seq<EntryModel>,
    device: DeviceModel,
    added_at: Seq<char>,
    other: Seq<char>,
)
    ensures
        holds(authorized(store, device, added_at), device.instance_id),
        !holds(revoked(store, device.instance_id), device.instance_id),
        other != device.instance_id ==> (holds(authorized(store, device, added_at), other)
            <==> holds(store, other)),
        other != device.instance_id ==> (holds(revoked(store, device.instance_id), other)
            <==> holds(store, other)),
        !holds(Seq::<EntryModel>::empty(), other),
{
    lemma_revoked(store, device.instance_id);
    lemma_holds_push(store, entry_for(device, added_at), device.instance_id);
    lemma_holds_push(store, entry_for(device, added_at), other);
}

/// Authorizing keeps the invariant of the store: a store without doubles
/// has none after a device was authorized.
pub proof fn lemma_authorize_keeps_distinct(
    store: Seq<EntryModel>,
    device: DeviceModel,
    added_at: Seq<char>,
)
    requires
        distinct_ids(store),
    ensures
        distinct_ids(authorized(store, device, added_at)),
{
    lemma_distinct_push(store, entry_for(device, added_at));
}

/// Authorizing is idempotent: a second authorization of the same device, at
/// whatever time and under whatever name, leaves the store as the first one
/// made it and calls for no event.
pub proof fn lemma_authorize_idempotent(
    store: Seq<EntryModel>,
    device: DeviceModel,
    first_time: Seq<char>,
    again: DeviceModel,
    second_time: Seq<char>,
)
    requires
        again.instance_id == device.instance_id,
    ensures
        authorized(authorized(store, device, first_time), again, second_time) == authorized(
            store,
            device,
            first_time,
        ),
        authorize_audit(authorized(store, device, first_time), again) is None,
{
    lemma_trust_follows_membership(store, device, first_time, device.instance_id);
}

/// Two authorizations of a device that a store without doubles did not hold
/// leave exactly one entry for it and call for exactly one event, the first
/// one's.
pub proof fn lemma_authorize_twice_once(
    store: Seq<EntryModel>,
    device: DeviceModel,
    first_time: Seq<char>,
    second_time: Seq<char>,
)
    requires
        distinct_ids(store),
        !holds(store, device.instance_id),
    ensures
        ({
            let once = authorized(store, device, first_time);
            let twice = authorized(once, device, second_time);
            &&& twice == store.push(entry_for(device, first_time))
            &&& twice.len() == store.len() + 1
            &&& twice.filter(|entry: EntryModel| entry.instance_id == device.instance_id)
                == seq![entry_for(device, first_time)]
            &&& distinct_ids(twice)
            &&& authorize_audit(store, device) is Some
            &&& authorize_audit(once, device) is None
        }),
{
    let same = |entry: EntryModel| entry.instance_id == device.instance_id;
    lemma_authorize_idempotent(store, device, first_time, device, second_time);
    lemma_authorize_keeps_distinct(store, device, first_time);
    lemma_none_match(store, device.instance_id);
    store.lemma_filter_push(entry_for(device, first_time), same);
}

/// A store that does not hold a device has no entry that matches it.
proof fn lemma_none_match(store: Seq<EntryModel>, id: Seq<char>)
    requires
        !holds(store, id),
    ensures
        store.filter(|entry: EntryModel| entry.instance_id == id) == Seq::<EntryModel>::empty(),
    decreases store.len(),
{
    reveal(Seq::filter);
    if store.len() > 0 {
        let rest = store.drop_last();
        assert(store =~= rest.push(store.last()));
        lemma_holds_push(rest, store.last(), id);
        lemma_none_match(rest, id);
    }
}

/// Revoking a device that the store does not hold is no operation: the store
/// stays as it is and there is no event to log.
pub proof fn lemma_revoke_absent_is_noop(store: Seq<EntryModel>, id: Seq<char>)
    requires
        !holds(store, id),
    ensures
        revoked(store, id) == store,
        revoke_audit(store, id) is None,
{
    lemma_revoked(store, id);
}

} // verus!
