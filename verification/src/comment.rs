//! Entry operations for the Comment kind: create, read, update, delete.
//!
//! Identical in shape to the Post operations, specialized to the Comment
//! payload and its validity rule (non-empty text).

use vstd::prelude::*;
use crate::data::Address;
use crate::data::AddressV;
use crate::data::ActionV;
use crate::data::Comment;
use crate::data::Entry;
use crate::data::StoredObject;
use crate::data::StoredObjectV;
use crate::data::StoredRecord;
use crate::data::comment_entry;
use crate::data::comment_valid;
use crate::data::object_at;
use crate::data::validate_comment;
use crate::store::ContentStore;
use crate::store::action_at;
use crate::store::contains_address;
use crate::store::record_of;
use crate::store::with_object;
use crate::chain::BlogError;
use crate::chain::create_action;
use crate::chain::create_chain;
use crate::chain::create_record_v;
use crate::chain::delete_action;
use crate::chain::delete_chain;
use crate::chain::fetch_record;
use crate::chain::update_action;
use crate::chain::update_chain;
use crate::chain::update_record_v;
use crate::store::lemma_with_object_present;

verus! {

/// Input to `update_comment`: the address of the action being superseded and
/// the new payload.
pub struct UpdateCommentInput {
    pub previous_comment_hash: Address,
    pub updated_comment: Comment,
}

/// Validate the payload, persist a Create action for it, and return the
/// confirmed record. Fails with `ValidationError`, writing nothing, exactly
/// when the payload is invalid.
pub fn create_comment(store: &mut ContentStore, comment: Comment) -> (r: Result<
    StoredRecord,
    BlogError,
>)
    ensures
        r is Ok <==> comment_valid(comment@),
        r matches Ok(rec) ==> final(store)@ == create_chain(old(store)@, comment_entry(comment@))
            && rec@ == create_record_v(comment_entry(comment@)),
        r is Err ==> final(store)@ == old(store)@ && r == Err::<StoredRecord, BlogError>(
            BlogError::ValidationError,
        ),
{
    let ghost e = comment_entry(comment@);
    if !validate_comment(&comment) {
        return Err(BlogError::ValidationError);
    }
    let rec = create_action(store, Entry::Comment(comment));
    proof {
        lemma_with_object_present(
            with_object(old(store)@, StoredObjectV::Entry { entry: e }),
            StoredObjectV::Action { action: ActionV::Create { entry: e } },
        );
    }
    match store.get(&rec.address) {
        Some(StoredObject::Action { action }) => Ok(
            StoredRecord { address: rec.address, action },
        ),
        _ => Err(BlogError::StorageFailure),
    }
}

/// One-hop read of the record at `original_comment_hash`: `Ok(None)` when the
/// address is unknown, the record when it denotes a stored action, and
/// `MalformedResponse` when the details response has any other shape.
pub fn get_original_comment(store: &ContentStore, original_comment_hash: &Address) -> (r: Result<
    Option<StoredRecord>,
    BlogError,
>)
    ensures
        (r matches Ok(Some(_))) <==> action_at(store@, original_comment_hash@),
        r matches Ok(Some(rec)) ==> rec@ == record_of(object_at(original_comment_hash@))
            && rec@.address == original_comment_hash@,
        (r matches Ok(None)) <==> !contains_address(store@, original_comment_hash@),
        (r is Err) <==> contains_address(store@, original_comment_hash@) && object_at(
            original_comment_hash@,
        ) is Entry,
        r is Err ==> r == Err::<Option<StoredRecord>, BlogError>(BlogError::MalformedResponse),
{
    fetch_record(store, original_comment_hash)
}

/// Validate the new payload, persist an Update action superseding the action
/// at `previous_comment_hash`, and return the confirmed new head record.
/// `ValidationError` comes before any store interaction; `NotFound` comes,
/// writing nothing, exactly when the previous address does not resolve to a
/// stored action.
pub fn update_comment(store: &mut ContentStore, input: UpdateCommentInput) -> (r: Result<
    StoredRecord,
    BlogError,
>)
    ensures
        r is Ok <==> comment_valid(input.updated_comment@) && action_at(
            old(store)@,
            input.previous_comment_hash@,
        ),
        r matches Ok(rec) ==> final(store)@ == update_chain(
            old(store)@,
            input.previous_comment_hash@,
            comment_entry(input.updated_comment@),
        ) && rec@ == update_record_v(
            input.previous_comment_hash@,
            comment_entry(input.updated_comment@),
        ),
        !comment_valid(input.updated_comment@) ==> final(store)@ == old(store)@ && r == Err::<
            StoredRecord,
            BlogError,
        >(BlogError::ValidationError),
        comment_valid(input.updated_comment@) && !action_at(
            old(store)@,
            input.previous_comment_hash@,
        ) ==> final(store)@ == old(store)@ && r == Err::<StoredRecord, BlogError>(
            BlogError::NotFound,
        ),
{
    let UpdateCommentInput { previous_comment_hash, updated_comment } = input;
    let ghost e = comment_entry(updated_comment@);
    let ghost prev = previous_comment_hash@;
    if !validate_comment(&updated_comment) {
        return Err(BlogError::ValidationError);
    }
    let rec = match update_action(store, previous_comment_hash, Entry::Comment(updated_comment)) {
        Ok(rec) => rec,
        Err(err) => {
            return Err(err);
        },
    };
    proof {
        lemma_with_object_present(
            with_object(old(store)@, StoredObjectV::Entry { entry: e }),
            StoredObjectV::Action { action: ActionV::Update { previous: prev, entry: e } },
        );
    }
    match store.get(&rec.address) {
        Some(StoredObject::Action { action }) => Ok(
            StoredRecord { address: rec.address, action },
        ),
        _ => Err(BlogError::StorageFailure),
    }
}

/// Persist a Delete action tombstoning the action at `original_comment_hash`
/// and return the new Delete action's address. Fails with `NotFound`, writing
/// nothing, exactly when the address does not resolve to a stored action.
/// History is never erased.
pub fn delete_comment(store: &mut ContentStore, original_comment_hash: Address) -> (r: Result<
    Address,
    BlogError,
>)
    ensures
        r is Ok <==> action_at(old(store)@, original_comment_hash@),
        r matches Ok(b) ==> final(store)@ == delete_chain(old(store)@, original_comment_hash@)
            && b@ == (AddressV::Delete { target: Box::new(original_comment_hash@) }),
        r is Err ==> final(store)@ == old(store)@ && r == Err::<Address, BlogError>(
            BlogError::NotFound,
        ),
{
    match delete_action(store, original_comment_hash) {
        Ok(rec) => Ok(rec.address),
        Err(err) => Err(err),
    }
}

} // verus!
