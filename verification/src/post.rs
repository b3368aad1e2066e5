//! Entry operations for the Post kind: create, read, update, delete.
//!
//! Each operation validates its payload, delegates chain construction to the
//! action chain model, and confirms writes with an immediate re-fetch. The
//! contracts pin down, for every input, which result is returned and how the
//! store changes; in particular a successful create or update can never fail
//! its confirmatory re-fetch, so `StorageFailure` is proved unreachable here.

use vstd::prelude::*;
use crate::data::Address;
use crate::data::AddressV;
use crate::data::ActionV;
use crate::data::Entry;
use crate::data::Post;
use crate::data::StoredObject;
use crate::data::StoredObjectV;
use crate::data::StoredRecord;
use crate::data::object_at;
use crate::data::post_entry;
use crate::data::post_valid;
use crate::data::validate_post;
use crate::store::ContentStore;
use crate::store::action_at;
use crate::store::contains_address;
use crate::store::record_of;
use crate::store::with_object;
use crate::chain::BlogError;
use crate::chain::create_action;
use crate::chain::create_chain;
use crate::chain::create_record_v;
use crate::chain::delete_action;
use crate::chain::delete_chain;
use crate::chain::fetch_record;
use crate::chain::update_action;
use crate::chain::update_chain;
use crate::chain::update_record_v;
use crate::store::lemma_with_object_present;

verus! {

/// Input to `update_post`: the chain's stable original address, the address
/// of the action being superseded, and the new payload.
pub struct UpdatePostInput {
    pub original_post_hash: Address,
    pub previous_post_hash: Address,
    pub updated_post: Post,
}

/// Validate the payload, persist a Create action for it, and return the
/// confirmed record. Fails with `ValidationError`, writing nothing, exactly
/// when the payload is invalid.
pub fn create_post(store: &mut ContentStore, post: Post) -> (r: Result<StoredRecord, BlogError>)
    ensures
        r is Ok <==> post_valid(post@),
        r matches Ok(rec) ==> final(store)@ == create_chain(old(store)@, post_entry(post@))
            && rec@ == create_record_v(post_entry(post@)),
        r is Err ==> final(store)@ == old(store)@ && r == Err::<StoredRecord, BlogError>(
            BlogError::ValidationError,
        ),
{
    let ghost e = post_entry(post@);
    if !validate_post(&post) {
        return Err(BlogError::ValidationError);
    }
    let rec = create_action(store, Entry::Post(post));
    proof {
        lemma_with_object_present(
            with_object(old(store)@, StoredObjectV::Entry { entry: e }),
            StoredObjectV::Action { action: ActionV::Create { entry: e } },
        );
    }
    match store.get(&rec.address) {
        Some(StoredObject::Action { action }) => Ok(
            StoredRecord { address: rec.address, action },
        ),
        _ => Err(BlogError::StorageFailure),
    }
}

/// One-hop read of the record at `original_post_hash`: `Ok(None)` when the
/// address is unknown, the record when it denotes a stored action, and
/// `MalformedResponse` when the details response has any other shape.
pub fn get_original_post(store: &ContentStore, original_post_hash: &Address) -> (r: Result<
    Option<StoredRecord>,
    BlogError,
>)
    ensures
        (r matches Ok(Some(_))) <==> action_at(store@, original_post_hash@),
        r matches Ok(Some(rec)) ==> rec@ == record_of(object_at(original_post_hash@))
            && rec@.address == original_post_hash@,
        (r matches Ok(None)) <==> !contains_address(store@, original_post_hash@),
        (r is Err) <==> contains_address(store@, original_post_hash@) && object_at(
            original_post_hash@,
        ) is Entry,
        r is Err ==> r == Err::<Option<StoredRecord>, BlogError>(BlogError::MalformedResponse),
{
    fetch_record(store, original_post_hash)
}

/// Validate the new payload, persist an Update action superseding the action
/// at `previous_post_hash`, and return the confirmed new head record.
/// `ValidationError` comes before any store interaction; `NotFound` comes,
/// writing nothing, exactly when the previous address does not resolve to a
/// stored action.
pub fn update_post(store: &mut ContentStore, input: UpdatePostInput) -> (r: Result<
    StoredRecord,
    BlogError,
>)
    ensures
        r is Ok <==> post_valid(input.updated_post@) && action_at(
            old(store)@,
            input.previous_post_hash@,
        ),
        r matches Ok(rec) ==> final(store)@ == update_chain(
            old(store)@,
            input.previous_post_hash@,
            post_entry(input.updated_post@),
        ) && rec@ == update_record_v(input.previous_post_hash@, post_entry(input.updated_post@)),
        !post_valid(input.updated_post@) ==> final(store)@ == old(store)@ && r == Err::<
            StoredRecord,
            BlogError,
        >(BlogError::ValidationError),
        post_valid(input.updated_post@) && !action_at(old(store)@, input.previous_post_hash@)
            ==> final(store)@ == old(store)@ && r == Err::<StoredRecord, BlogError>(
            BlogError::NotFound,
        ),
{
    let UpdatePostInput { original_post_hash: _, previous_post_hash, updated_post } = input;
    let ghost e = post_entry(updated_post@);
    let ghost prev = previous_post_hash@;
    if !validate_post(&updated_post) {
        return Err(BlogError::ValidationError);
    }
    let rec = match update_action(store, previous_post_hash, Entry::Post(updated_post)) {
        Ok(rec) => rec,
        Err(err) => {
            return Err(err);
        },
    };
    proof {
        lemma_with_object_present(
            with_object(old(store)@, StoredObjectV::Entry { entry: e }),
            StoredObjectV::Action { action: ActionV::Update { previous: prev, entry: e } },
        );
    }
    match store.get(&rec.address) {
        Some(StoredObject::Action { action }) => Ok(
            StoredRecord { address: rec.address, action },
        ),
        _ => Err(BlogError::StorageFailure),
    }
}

/// Persist a Delete action tombstoning the action at `original_post_hash` and
/// return the new Delete action's address. Fails with `NotFound`, writing
/// nothing, exactly when the address does not resolve to a stored action.
/// History is never erased.
pub fn delete_post(store: &mut ContentStore, original_post_hash: Address) -> (r: Result<
    Address,
    BlogError,
>)
    ensures
        r is Ok <==> action_at(old(store)@, original_post_hash@),
        r matches Ok(b) ==> final(store)@ == delete_chain(old(store)@, original_post_hash@) && b@
            == (AddressV::Delete { target: Box::new(original_post_hash@) }),
        r is Err ==> final(store)@ == old(store)@ && r == Err::<Address, BlogError>(
            BlogError::NotFound,
        ),
{
    match delete_action(store, original_post_hash) {
        Ok(rec) => Ok(rec.address),
        Err(err) => Err(err),
    }
}

} // verus!
