//! The action chain model: producing and persisting Create, Update and Delete
//! actions, and the one-hop record read shared by the entry operations.
//!
//! A logical record is the chain rooted at a Create action. An Update
//! supersedes the action at its predecessor address; a Delete tombstones the
//! action at its target address. Update and Delete fail with `NotFound` when
//! the referenced address does not resolve to a stored action; no store write
//! happens in that case.

use vstd::prelude::*;
use crate::data::Address;
use crate::data::AddressV;
use crate::data::Action;
use crate::data::ActionV;
use crate::data::Entry;
use crate::data::EntryV;
use crate::data::StoredObject;
use crate::data::StoredObjectV;
use crate::data::StoredRecord;
use crate::data::StoredRecordV;
use crate::data::object_at;
use crate::data::clone_entry;
use crate::data::clone_action;
use crate::store::ContentStore;
use crate::store::Details;
use crate::store::action_at;
use crate::store::contains_address;
use crate::store::record_of;
use crate::store::with_object;

verus! {

/// The errors an operation can surface.
#[derive(Clone, Copy, PartialEq, Eq, Structural, Debug)]
pub enum BlogError {
    /// A referenced address does not resolve to any stored action.
    NotFound,
    /// The store returned a details shape inconsistent with the single-record
    /// expectation: a backend contract violation, not a user error.
    MalformedResponse,
    /// A write succeeded but the immediate confirmatory read found nothing.
    StorageFailure,
    /// The payload fails its kind's field requirements; no store interaction
    /// was attempted.
    ValidationError,
}

// ----------------------------------------------------------------------
// Spec-level description of each chain operation's effect on the store
// ----------------------------------------------------------------------
/// The store after a create: the entry and its Create action are persisted.
pub open spec fn create_chain(s: Seq<StoredObjectV>, e: EntryV) -> Seq<StoredObjectV> {
    with_object(
        with_object(s, StoredObjectV::Entry { entry: e }),
        StoredObjectV::Action { action: ActionV::Create { entry: e } },
    )
}

/// The store after an update: the new entry and the Update action referencing
/// the superseded action are persisted.
pub open spec fn update_chain(s: Seq<StoredObjectV>, prev: AddressV, e: EntryV) -> Seq<
    StoredObjectV,
> {
    with_object(
        with_object(s, StoredObjectV::Entry { entry: e }),
        StoredObjectV::Action { action: ActionV::Update { previous: prev, entry: e } },
    )
}

/// The store after a delete: the Delete action referencing the tombstoned
/// action is persisted. Nothing is ever erased.
pub open spec fn delete_chain(s: Seq<StoredObjectV>, target: AddressV) -> Seq<StoredObjectV> {
    with_object(s, StoredObjectV::Action { action: ActionV::Delete { target } })
}

/// The record a create returns.
pub open spec fn create_record_v(e: EntryV) -> StoredRecordV {
    StoredRecordV {
        address: AddressV::Create { entry: e },
        action: ActionV::Create { entry: e },
    }
}

/// The record an update returns.
pub open spec fn update_record_v(prev: AddressV, e: EntryV) -> StoredRecordV {
    StoredRecordV {
        address: AddressV::Update { previous: Box::new(prev), entry: e },
        action: ActionV::Update { previous: prev, entry: e },
    }
}

/// The record a delete returns.
pub open spec fn delete_record_v(target: AddressV) -> StoredRecordV {
    StoredRecordV {
        address: AddressV::Delete { target: Box::new(target) },
        action: ActionV::Delete { target },
    }
}

// ----------------------------------------------------------------------
// Executable chain operations
// ----------------------------------------------------------------------
/// Produce a Create action for the entry and persist both. The Create
/// action's own address is the record's stable original address.
pub fn create_action(store: &mut ContentStore, entry: Entry) -> (r: StoredRecord)
    ensures
        final(store)@ == create_chain(old(store)@, entry@),
        r@ == create_record_v(entry@),
{
    let entry_copy = clone_entry(&entry);
    let _entry_addr = store.put(StoredObject::Entry { entry: entry_copy });
    let action = Action::Create { entry };
    let addr = store.put(StoredObject::Action { action: clone_action(&action) });
    StoredRecord { address: addr, action }
}

/// Produce an Update action referencing `previous` and persist it with its
/// new entry. Fails with `NotFound`, writing nothing, when `previous` does
/// not resolve to a stored action.
pub fn update_action(store: &mut ContentStore, previous: Address, entry: Entry) -> (r: Result<
    StoredRecord,
    BlogError,
>)
    ensures
        r is Ok <==> action_at(old(store)@, previous@),
        r matches Ok(rec) ==> final(store)@ == update_chain(old(store)@, previous@, entry@)
            && rec@ == update_record_v(previous@, entry@),
        r is Err ==> final(store)@ == old(store)@ && r == Err::<StoredRecord, BlogError>(
            BlogError::NotFound,
        ),
{
    match store.get(&previous) {
        Some(StoredObject::Action { .. }) => {},
        _ => {
            return Err(BlogError::NotFound);
        },
    }
    let entry_copy = clone_entry(&entry);
    let _entry_addr = store.put(StoredObject::Entry { entry: entry_copy });
    let action = Action::Update { previous, entry };
    let addr = store.put(StoredObject::Action { action: clone_action(&action) });
    Ok(StoredRecord { address: addr, action })
}

/// Produce a Delete action referencing `target` and persist it. Fails with
/// `NotFound`, writing nothing, when `target` does not resolve to a stored
/// action.
pub fn delete_action(store: &mut ContentStore, target: Address) -> (r: Result<
    StoredRecord,
    BlogError,
>)
    ensures
        r is Ok <==> action_at(old(store)@, target@),
        r matches Ok(rec) ==> final(store)@ == delete_chain(old(store)@, target@) && rec@
            == delete_record_v(target@),
        r is Err ==> final(store)@ == old(store)@ && r == Err::<StoredRecord, BlogError>(
            BlogError::NotFound,
        ),
{
    match store.get(&target) {
        Some(StoredObject::Action { .. }) => {},
        _ => {
            return Err(BlogError::NotFound);
        },
    }
    let action = Action::Delete { target };
    let addr = store.put(StoredObject::Action { action: clone_action(&action) });
    Ok(StoredRecord { address: addr, action })
}

/// One-hop read of the record at an address: `Ok(None)` when the address is
/// unknown, `Ok(Some(record))` when it denotes a stored action, and
/// `MalformedResponse` when the details come back in a shape other than a
/// single action-wrapped record (a bare entry).
pub fn fetch_record(store: &ContentStore, addr: &Address) -> (r: Result<
    Option<StoredRecord>,
    BlogError,
>)
    ensures
        (r matches Ok(Some(_))) <==> action_at(store@, addr@),
        r matches Ok(Some(rec)) ==> rec@ == record_of(object_at(addr@)) && rec@.address == addr@,
        (r matches Ok(None)) <==> !contains_address(store@, addr@),
        (r is Err) <==> contains_address(store@, addr@) && object_at(addr@) is Entry,
        r is Err ==> r == Err::<Option<StoredRecord>, BlogError>(BlogError::MalformedResponse),
{
    match store.get_details(addr) {
        None => Ok(None),
        Some(Details::Record(rd)) => Ok(Some(rd.record)),
        Some(Details::Entry(_)) => Err(BlogError::MalformedResponse),
    }
}

} // verus!
