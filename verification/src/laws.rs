//! Laws of the versioned record store, stated over the same spec functions
//! the operations' contracts use and proved once for every store and payload.

use vstd::prelude::*;
use crate::data::AddressV;
use crate::data::ActionV;
use crate::data::EntryV;
use crate::data::StoredObjectV;
use crate::data::action_entry;
use crate::data::object_at;
use crate::store::action_at;
use crate::store::delete_records_of;
use crate::store::lemma_delete_records_complete;
use crate::store::lemma_update_records_complete;
use crate::store::lemma_update_records_push;
use crate::store::lemma_with_object_present;
use crate::store::lemma_with_object_preserves;
use crate::store::record_of;
use crate::store::update_records_of;
use crate::store::with_object;
use crate::chain::create_chain;
use crate::chain::create_record_v;
use crate::chain::delete_chain;
use crate::chain::delete_record_v;
use crate::chain::update_chain;
use crate::chain::update_record_v;
use crate::resolver::deleted_at;

verus! {

/// Round trip: after a create, the new Create action's address — the record's
/// stable original address — resolves to a stored action whose record carries
/// exactly the created entry. Together with the read contracts
/// (`get_original_post` / `get_original_comment` return `Ok(Some(record))`
/// with `record == record_of(object_at(address))` exactly when the address
/// names a stored action), the read immediately after a successful create can
/// never come back empty, and the record it returns holds the created
/// payload.
pub proof fn lemma_create_round_trip(s: Seq<StoredObjectV>, e: EntryV)
    ensures
        action_at(create_chain(s, e), AddressV::Create { entry: e }),
        record_of(object_at(AddressV::Create { entry: e })) == create_record_v(e),
        action_entry(create_record_v(e).action) == Some(e),
{
    lemma_with_object_present(
        with_object(s, StoredObjectV::Entry { entry: e }),
        StoredObjectV::Action { action: ActionV::Create { entry: e } },
    );
}

/// Superseding: updating an action address that nothing referenced yet leaves
/// exactly one update referencing it — the new one, whose record carries
/// exactly the new entry and whose address stands one link above the old one.
pub proof fn lemma_update_supersedes(s: Seq<StoredObjectV>, a: AddressV, e: EntryV)
    requires
        update_records_of(s, a).len() == 0,
    ensures
        update_records_of(update_chain(s, a, e), a) == seq![update_record_v(a, e)],
        action_entry(update_record_v(a, e).action) == Some(e),
{
    let entry_obj = StoredObjectV::Entry { entry: e };
    let upd = StoredObjectV::Action { action: ActionV::Update { previous: a, entry: e } };
    let s1 = with_object(s, entry_obj);
    assert(update_records_of(s1, a) =~= update_records_of(s, a)) by {
        if !s.contains(entry_obj) {
            lemma_update_records_push(s, entry_obj, a);
        }
    };
    if s1.contains(upd) {
        lemma_update_records_complete(s1, upd, a);
        let k = choose|k: int|
            0 <= k < update_records_of(s1, a).len() && update_records_of(s1, a)[k] == record_of(
                upd,
            );
        assert(false);
    }
    lemma_update_records_push(s1, upd, a);
    assert(update_records_of(update_chain(s, a, e), a) =~= seq![update_record_v(a, e)]);
}

/// Tombstoning: after a delete of an action address, a referencing delete —
/// addressed at exactly the address the delete operation returns — is visible
/// among the target's details, and the target resolves as deleted. (That a
/// delete of an unresolvable address fails with `NotFound`, writing nothing,
/// is part of `delete_post`'s and `delete_comment`'s own contracts.)
pub proof fn lemma_delete_tombstones(s: Seq<StoredObjectV>, a: AddressV)
    ensures
        delete_records_of(delete_chain(s, a), a).contains(delete_record_v(a)),
        action_at(s, a) ==> deleted_at(delete_chain(s, a), a),
{
    let del = StoredObjectV::Action { action: ActionV::Delete { target: a } };
    lemma_with_object_present(s, del);
    lemma_delete_records_complete(delete_chain(s, a), del, a);
    assert(record_of(del) == delete_record_v(a));
    if action_at(s, a) {
        lemma_with_object_preserves(s, del);
        let k = choose|k: int|
            0 <= k < delete_records_of(delete_chain(s, a), a).len() && delete_records_of(
                delete_chain(s, a),
                a,
            )[k] == delete_record_v(a);
        assert(delete_records_of(delete_chain(s, a), a).len() > 0);
    }
}

/// Idempotence of content addressing: creating byte-identical payload content
/// twice persists the entry portion at the identical content-derived address
/// (`AddressV::Entry` over the same content, by construction), and the second
/// create leaves the store exactly as the first left it — both creates
/// nonetheless succeed independently.
pub proof fn lemma_create_idempotent(s: Seq<StoredObjectV>, e: EntryV)
    ensures
        create_chain(create_chain(s, e), e) == create_chain(s, e),
{
    let entry_obj = StoredObjectV::Entry { entry: e };
    let act_obj = StoredObjectV::Action { action: ActionV::Create { entry: e } };
    let s1 = with_object(s, entry_obj);
    let s2 = create_chain(s, e);
    lemma_with_object_present(s, entry_obj);
    lemma_with_object_preserves(s1, act_obj);
    lemma_with_object_present(s1, act_obj);
    assert(s2.contains(entry_obj));
    assert(s2.contains(act_obj));
}

} // verus!
