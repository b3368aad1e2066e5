//! The record resolver: locating the current state of a logical record from
//! any action address in its chain.
//!
//! Resolution is exposed as a step function (`resolve_step`) that callers can
//! repeat — one hop inspects an action and the actions referencing it — and as
//! a driver (`resolve_current`) that repeats the step until the chain settles.
//! A chain with no terminal delete resolves to `Live` at its head; a delete at
//! or above the starting point resolves to `Deleted`; a fork (two or more
//! updates referencing one action) is reported with all referencing records
//! rather than silently picking one.

use vstd::prelude::*;
use crate::data::Address;
use crate::data::AddressV;
use crate::data::Action;
use crate::data::Entry;
use crate::data::StoredObjectV;
use crate::data::StoredRecord;
use crate::data::action_entry;
use crate::data::addr_height;
use crate::data::address_of_object;
use crate::data::clone_address;
use crate::data::object_at;
use crate::store::ContentStore;
use crate::store::Details;
use crate::store::RecordDetails;
use crate::store::action_at;
use crate::store::delete_records_of;
use crate::store::lemma_update_records_sound;
use crate::store::record_of;
use crate::store::record_views;
use crate::store::update_records_of;

verus! {

// ----------------------------------------------------------------------
// Spec-level resolution states
// ----------------------------------------------------------------------
/// A delete is present at `a` itself or among the actions referencing it.
pub open spec fn deleted_at(s: Seq<StoredObjectV>, a: AddressV) -> bool {
    action_at(s, a) && (a is Delete || delete_records_of(s, a).len() > 0)
}

/// `a` is a stored create or update that nothing references: the chain's head.
pub open spec fn live_at(s: Seq<StoredObjectV>, a: AddressV) -> bool {
    action_at(s, a) && !(a is Delete) && delete_records_of(s, a).len() == 0
        && update_records_of(s, a).len() == 0
}

/// Exactly one stored update supersedes `a`, and `b` is that update's address.
pub open spec fn advances_to(s: Seq<StoredObjectV>, a: AddressV, b: AddressV) -> bool {
    action_at(s, a) && !(a is Delete) && delete_records_of(s, a).len() == 0
        && update_records_of(s, a).len() == 1 && b == update_records_of(s, a)[0].address
}

/// Two or more stored updates reference `a`: a fork this layer does not order.
pub open spec fn forked_at(s: Seq<StoredObjectV>, a: AddressV) -> bool {
    action_at(s, a) && !(a is Delete) && delete_records_of(s, a).len() == 0
        && update_records_of(s, a).len() >= 2
}

/// `b` is reached from `a` by `n` single-hop advances along sole updates.
pub open spec fn follows(s: Seq<StoredObjectV>, a: AddressV, b: AddressV, n: nat) -> bool
    decreases n,
{
    if n == 0 {
        a == b
    } else {
        exists|m: AddressV| advances_to(s, a, m) && follows(s, m, b, (n - 1) as nat)
    }
}

// ----------------------------------------------------------------------
// Termination measure for chain walking
// ----------------------------------------------------------------------
/// The stored object is an action standing strictly higher than `h` links.
pub open spec fn above(o: StoredObjectV, h: nat) -> bool {
    o is Action && addr_height(address_of_object(o)) > h
}

/// How many stored actions stand strictly higher than `h` links. Every
/// forward hop lands on a stored action one link higher, so this count
/// shrinks with each hop.
pub open spec fn count_above(s: Seq<StoredObjectV>, h: nat) -> nat
    decreases s.len(),
{
    if s.len() == 0 {
        0
    } else {
        count_above(s.drop_last(), h) + (if above(s.last(), h) {
            1nat
        } else {
            0nat
        })
    }
}

proof fn lemma_count_above_mono(s: Seq<StoredObjectV>, h1: nat, h2: nat)
    requires
        h1 <= h2,
    ensures
        count_above(s, h2) <= count_above(s, h1),
    decreases s.len(),
{
    if s.len() > 0 {
        lemma_count_above_mono(s.drop_last(), h1, h2);
    }
}

proof fn lemma_count_above_strict(s: Seq<StoredObjectV>, h1: nat, h2: nat, i: int)
    requires
        h1 <= h2,
        0 <= i < s.len(),
        above(s[i], h1),
        !above(s[i], h2),
    ensures
        count_above(s, h2) < count_above(s, h1),
    decreases s.len(),
{
    if i == s.len() - 1 {
        assert(s.last() == s[i]);
        lemma_count_above_mono(s.drop_last(), h1, h2);
    } else {
        assert(s.drop_last()[i] == s[i]);
        lemma_count_above_strict(s.drop_last(), h1, h2, i);
    }
}

// ----------------------------------------------------------------------
// One-hop resolution
// ----------------------------------------------------------------------
/// The outcome of inspecting one action and the actions referencing it.
pub enum ResolveStep {
    /// The address does not resolve to any stored action.
    NotFound,
    /// The action is a delete, or a stored delete references it.
    Deleted,
    /// Nothing references the action: it is the head and its record is live.
    Live { record: StoredRecord },
    /// Exactly one stored update supersedes the action; its address is the
    /// new frontier for the next hop.
    Advance { next: Address },
    /// Two or more stored updates reference the action: all of them are
    /// reported, deferring the choice to the caller.
    Forked { updates: Vec<StoredRecord> },
}

/// One resolution hop from `addr`, per the details the store reports.
pub fn resolve_step(store: &ContentStore, addr: &Address) -> (r: ResolveStep)
    ensures
        match r {
            ResolveStep::NotFound => !action_at(store@, addr@),
            ResolveStep::Deleted => deleted_at(store@, addr@),
            ResolveStep::Live { record } => live_at(store@, addr@) && record@ == record_of(
                object_at(addr@),
            ) && record@.address == addr@,
            ResolveStep::Advance { next } => advances_to(store@, addr@, next@),
            ResolveStep::Forked { updates } => forked_at(store@, addr@) && record_views(updates@)
                == update_records_of(store@, addr@),
        },
{
    match store.get_details(addr) {
        None => ResolveStep::NotFound,
        Some(Details::Entry(_)) => ResolveStep::NotFound,
        Some(Details::Record(rd)) => {
            let RecordDetails { record, updates, deletes } = rd;
            let is_delete = match &record.action {
                Action::Delete { .. } => true,
                _ => false,
            };
            if is_delete {
                ResolveStep::Deleted
            } else if deletes.len() > 0 {
                ResolveStep::Deleted
            } else if updates.len() == 0 {
                ResolveStep::Live { record }
            } else if updates.len() == 1 {
                let next = clone_address(&updates[0].address);
                proof {
                    assert(next@ == record_views(updates@)[0].address);
                }
                ResolveStep::Advance { next }
            } else {
                ResolveStep::Forked { updates }
            }
        },
    }
}

// ----------------------------------------------------------------------
// Multi-hop resolution
// ----------------------------------------------------------------------
/// The current state of a logical record, resolved from any address in its
/// chain by repeated one-hop steps.
pub enum ResolvedState {
    /// The starting address does not resolve to any stored action.
    NotFound,
    /// A delete is present at or above the starting address.
    Deleted,
    /// The chain settles at `head`, whose action carries `entry`.
    Live { head: Address, entry: Entry },
    /// Walking reached an action that two or more updates reference; all
    /// referencing records are reported rather than silently picking one.
    Forked { at: Address, updates: Vec<StoredRecord> },
}

/// Repeat `resolve_step` until the chain settles.
pub fn resolve_current(store: &ContentStore, addr: &Address) -> (r: ResolvedState)
    ensures
        match r {
            ResolvedState::NotFound => !action_at(store@, addr@),
            ResolvedState::Deleted => exists|n: nat, m: AddressV|
                follows(store@, addr@, m, n) && deleted_at(store@, m),
            ResolvedState::Live { head, entry } => exists|n: nat|
                follows(store@, addr@, head@, n) && live_at(store@, head@) && action_entry(
                    record_of(object_at(head@)).action,
                ) == Some(entry@),
            ResolvedState::Forked { at, updates } => exists|n: nat|
                follows(store@, addr@, at@, n) && forked_at(store@, at@) && record_views(updates@)
                    == update_records_of(store@, at@),
        },
        (r is NotFound) <==> !action_at(store@, addr@),
    decreases count_above(store@, addr_height(addr@)),
{
    let ghost s = store@;
    let ghost a = addr@;
    match resolve_step(store, addr) {
        ResolveStep::NotFound => ResolvedState::NotFound,
        ResolveStep::Deleted => {
            proof {
                assert(follows(s, a, a, 0) && deleted_at(s, a));
            }
            ResolvedState::Deleted
        },
        ResolveStep::Live { record } => {
            let StoredRecord { address, action } = record;
            proof {
                assert(follows(s, a, a, 0));
            }
            match action {
                Action::Create { entry } => ResolvedState::Live { head: address, entry },
                Action::Update { entry, .. } => ResolvedState::Live { head: address, entry },
                Action::Delete { .. } => {
                    // a live head is never a delete: this arm is unreachable
                    ResolvedState::Deleted
                },
            }
        },
        ResolveStep::Forked { updates } => {
            let at = clone_address(addr);
            proof {
                assert(follows(s, a, a, 0));
            }
            ResolvedState::Forked { at, updates }
        },
        ResolveStep::Advance { next } => {
            proof {
                lemma_update_records_sound(s, a, 0);
                let rec = update_records_of(s, a)[0];
                let obj = StoredObjectV::Action { action: rec.action };
                assert(addr_height(next@) == addr_height(a) + 1);
                assert(action_at(s, next@)) by {
                    let i = choose|i: int| 0 <= i < s.len() && s[i] == obj;
                    assert(address_of_object(s[i]) == next@);
                };
                let i = choose|i: int| 0 <= i < s.len() && s[i] == obj;
                assert(above(s[i], addr_height(a)));
                assert(!above(s[i], addr_height(next@)));
                lemma_count_above_strict(s, addr_height(a), addr_height(next@), i);
            }
            let inner = resolve_current(store, &next);
            match inner {
                ResolvedState::NotFound => ResolvedState::NotFound,
                ResolvedState::Deleted => {
                    proof {
                        let (n, m) = choose|n: nat, m: AddressV|
                            follows(s, next@, m, n) && deleted_at(s, m);
                        assert(advances_to(s, a, next@) && follows(s, next@, m, n));
                        assert(follows(s, a, m, n + 1));
                    }
                    ResolvedState::Deleted
                },
                ResolvedState::Live { head, entry } => {
                    proof {
                        let n = choose|n: nat| follows(s, next@, head@, n) && live_at(s, head@)
                            && action_entry(record_of(object_at(head@)).action) == Some(entry@);
                        assert(advances_to(s, a, next@) && follows(s, next@, head@, n));
                        assert(follows(s, a, head@, n + 1));
                    }
                    ResolvedState::Live { head, entry }
                },
                ResolvedState::Forked { at, updates } => {
                    proof {
                        let n = choose|n: nat| follows(s, next@, at@, n) && forked_at(s, at@)
                            && record_views(updates@) == update_records_of(s, at@);
                        assert(advances_to(s, a, next@) && follows(s, next@, at@, n));
                        assert(follows(s, a, at@, n + 1));
                    }
                    ResolvedState::Forked { at, updates }
                },
            }
        },
    }
}

} // verus!
