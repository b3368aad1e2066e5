//! The content store: durable, append-only, content-addressed storage of
//! immutable entries and actions.
//!
//! `put` persists an object and returns its content-derived address; re-putting
//! identical content returns the same address and leaves the store unchanged.
//! `get` fetches by address. `get_details` fetches an object together with the
//! actions that causally reference it (one-hop forward edges: the updates and
//! deletes applied on top of it).

use vstd::prelude::*;
use crate::data::Address;
use crate::data::AddressV;
use crate::data::Action;
use crate::data::ActionV;
use crate::data::Entry;
use crate::data::StoredObject;
use crate::data::StoredObjectV;
use crate::data::StoredRecord;
use crate::data::StoredRecordV;
use crate::data::address_of_action;
use crate::data::address_of_object;
use crate::data::object_at;
use crate::data::object_eq;
use crate::data::object_address;
use crate::data::clone_object;
use crate::data::clone_action;
use crate::data::clone_address;
use crate::data::address_eq;
use crate::data::lemma_addressing_invertible;

verus! {

// ----------------------------------------------------------------------
// Spec-level store model
// ----------------------------------------------------------------------
/// Some stored object has the given address.
pub open spec fn contains_address(s: Seq<StoredObjectV>, a: AddressV) -> bool {
    exists|i: int| 0 <= i < s.len() && address_of_object(s[i]) == a
}

/// The address resolves to a stored *action* (not an entry).
pub open spec fn action_at(s: Seq<StoredObjectV>, a: AddressV) -> bool {
    contains_address(s, a) && object_at(a) is Action
}

/// The store after persisting an object: unchanged if the identical content
/// is already present, else extended by it.
pub open spec fn with_object(s: Seq<StoredObjectV>, o: StoredObjectV) -> Seq<StoredObjectV> {
    if s.contains(o) {
        s
    } else {
        s.push(o)
    }
}

/// The object is an update action whose predecessor reference is `a`.
pub open spec fn references_as_update(o: StoredObjectV, a: AddressV) -> bool {
    match o {
        StoredObjectV::Action { action: ActionV::Update { previous, .. } } => previous == a,
        _ => false,
    }
}

/// The object is a delete action whose target reference is `a`.
pub open spec fn references_as_delete(o: StoredObjectV, a: AddressV) -> bool {
    match o {
        StoredObjectV::Action { action: ActionV::Delete { target } } => target == a,
        _ => false,
    }
}

/// The record (address plus action) of a stored action object. The entry arm
/// is immaterial: the function is only ever applied to action objects.
pub open spec fn record_of(o: StoredObjectV) -> StoredRecordV {
    match o {
        StoredObjectV::Action { action } => StoredRecordV {
            address: address_of_action(action),
            action,
        },
        StoredObjectV::Entry { entry } => StoredRecordV {
            address: AddressV::Entry { entry },
            action: ActionV::Create { entry },
        },
    }
}

/// The records of all stored update actions referencing `a`, in store order.
pub open spec fn update_records_of(s: Seq<StoredObjectV>, a: AddressV) -> Seq<StoredRecordV>
    decreases s.len(),
{
    if s.len() == 0 {
        Seq::empty()
    } else {
        update_records_of(s.drop_last(), a) + (if references_as_update(s.last(), a) {
            seq![record_of(s.last())]
        } else {
            Seq::empty()
        })
    }
}

/// The records of all stored delete actions referencing `a`, in store order.
pub open spec fn delete_records_of(s: Seq<StoredObjectV>, a: AddressV) -> Seq<StoredRecordV>
    decreases s.len(),
{
    if s.len() == 0 {
        Seq::empty()
    } else {
        delete_records_of(s.drop_last(), a) + (if references_as_delete(s.last(), a) {
            seq![record_of(s.last())]
        } else {
            Seq::empty()
        })
    }
}

/// The views of a sequence of records.
pub open spec fn record_views(rs: Seq<StoredRecord>) -> Seq<StoredRecordV> {
    Seq::new(rs.len(), |i: int| rs[i]@)
}

// ----------------------------------------------------------------------
// Lemmas about the store model
// ----------------------------------------------------------------------
/// Both directions of content addressing are inverses of each other.
pub proof fn lemma_object_at_address(a: AddressV)
    ensures
        address_of_object(object_at(a)) == a,
{
}

/// After a put, the object and its address are present.
pub proof fn lemma_with_object_present(s: Seq<StoredObjectV>, o: StoredObjectV)
    ensures
        with_object(s, o).contains(o),
        contains_address(with_object(s, o), address_of_object(o)),
{
    if !s.contains(o) {
        assert(with_object(s, o)[s.len() as int] == o);
    }
    let s2 = with_object(s, o);
    let i = choose|i: int| 0 <= i < s2.len() && s2[i] == o;
    assert(address_of_object(s2[i]) == address_of_object(o));
}

/// A put never removes anything: objects and addresses are preserved.
pub proof fn lemma_with_object_preserves(s: Seq<StoredObjectV>, o: StoredObjectV)
    ensures
        forall|x: StoredObjectV| s.contains(x) ==> #[trigger] with_object(s, o).contains(x),
        forall|a: AddressV| contains_address(s, a) ==> #[trigger] contains_address(
            with_object(s, o),
            a,
        ),
{
    let s2 = with_object(s, o);
    assert forall|x: StoredObjectV| s.contains(x) implies #[trigger] s2.contains(x) by {
        let i = choose|i: int| 0 <= i < s.len() && s[i] == x;
        assert(s2[i] == x);
    };
    assert forall|a: AddressV| contains_address(s, a) implies #[trigger] contains_address(
        s2,
        a,
    ) by {
        let i = choose|i: int| 0 <= i < s.len() && address_of_object(s[i]) == a;
        assert(address_of_object(s2[i]) == a);
    };
}

/// Appending one object extends the referencing-update records by at most
/// that object's record.
pub proof fn lemma_update_records_push(s: Seq<StoredObjectV>, o: StoredObjectV, a: AddressV)
    ensures
        update_records_of(s.push(o), a) == update_records_of(s, a) + (
        if references_as_update(o, a) {
            seq![record_of(o)]
        } else {
            Seq::<StoredRecordV>::empty()
        }),
{
    assert(s.push(o).drop_last() =~= s);
    assert(s.push(o).last() == o);
}

/// Every stored update referencing `a` appears among the update records of `a`.
pub proof fn lemma_update_records_complete(s: Seq<StoredObjectV>, o: StoredObjectV, a: AddressV)
    requires
        s.contains(o),
        references_as_update(o, a),
    ensures
        update_records_of(s, a).contains(record_of(o)),
    decreases s.len(),
{
    let i = choose|i: int| 0 <= i < s.len() && s[i] == o;
    let pre = update_records_of(s.drop_last(), a);
    if i == s.len() - 1 {
        assert(update_records_of(s, a)[pre.len() as int] == record_of(o));
    } else {
        assert(s.drop_last()[i] == o);
        lemma_update_records_complete(s.drop_last(), o, a);
        let k = choose|k: int| 0 <= k < pre.len() && pre[k] == record_of(o);
        assert(update_records_of(s, a)[k] == record_of(o));
    }
}

/// Every stored delete referencing `a` appears among the delete records of `a`.
pub proof fn lemma_delete_records_complete(s: Seq<StoredObjectV>, o: StoredObjectV, a: AddressV)
    requires
        s.contains(o),
        references_as_delete(o, a),
    ensures
        delete_records_of(s, a).contains(record_of(o)),
    decreases s.len(),
{
    let i = choose|i: int| 0 <= i < s.len() && s[i] == o;
    let pre = delete_records_of(s.drop_last(), a);
    if i == s.len() - 1 {
        assert(delete_records_of(s, a)[pre.len() as int] == record_of(o));
    } else {
        assert(s.drop_last()[i] == o);
        lemma_delete_records_complete(s.drop_last(), o, a);
        let k = choose|k: int| 0 <= k < pre.len() && pre[k] == record_of(o);
        assert(delete_records_of(s, a)[k] == record_of(o));
    }
}

/// Every update record of `a` comes from a stored update action referencing
/// `a`, and its address stands one link above `a`.
pub proof fn lemma_update_records_sound(s: Seq<StoredObjectV>, a: AddressV, k: int)
    requires
        0 <= k < update_records_of(s, a).len(),
    ensures
        ({
            let r = update_records_of(s, a)[k];
            &&& r.action matches ActionV::Update { previous, .. } && previous == a
            &&& r.address == address_of_action(r.action)
            &&& s.contains(StoredObjectV::Action { action: r.action })
        }),
    decreases s.len(),
{
    let pre = update_records_of(s.drop_last(), a);
    if k < pre.len() {
        lemma_update_records_sound(s.drop_last(), a, k);
        let r = pre[k];
        let j = choose|j: int|
            0 <= j < s.drop_last().len() && s.drop_last()[j] == StoredObjectV::Action {
                action: r.action,
            };
        assert(s[j] == StoredObjectV::Action { action: r.action });
    } else {
        let o = s.last();
        assert(references_as_update(o, a));
        assert(update_records_of(s, a)[k] == record_of(o));
        assert(s.contains(o)) by {
            assert(s[s.len() - 1] == o);
        };
    }
}

// ----------------------------------------------------------------------
// The executable store
// ----------------------------------------------------------------------
/// Details of one address: the object itself and, for an action, the actions
/// that causally reference it (one-hop forward edges).
pub struct RecordDetails {
    pub record: StoredRecord,
    pub updates: Vec<StoredRecord>,
    pub deletes: Vec<StoredRecord>,
}

/// Details of an entry address.
pub struct EntryDetails {
    pub entry: Entry,
}

/// The shape of a details response depends on what the address denotes.
pub enum Details {
    Record(RecordDetails),
    Entry(EntryDetails),
}

/// An append-only, content-addressed store of immutable objects.
pub struct ContentStore {
    objects: Vec<StoredObject>,
}

impl View for ContentStore {
    type V = Seq<StoredObjectV>;

    closed spec fn view(&self) -> Seq<StoredObjectV> {
        Seq::new(self.objects@.len() as nat, |i: int| self.objects@[i]@)
    }
}

impl ContentStore {
    /// An empty store.
    pub fn new() -> (s: Self)
        ensures
            s@ == Seq::<StoredObjectV>::empty(),
    {
        let s = ContentStore { objects: Vec::new() };
        proof {
            assert(s@ =~= Seq::<StoredObjectV>::empty());
        }
        s
    }

    /// How many distinct objects the store holds.
    pub fn object_count(&self) -> (n: usize)
        ensures
            n == self@.len(),
    {
        self.objects.len()
    }

    /// Persist an immutable object and return its content-derived address.
    /// Idempotent: re-putting identical content returns the same address and
    /// leaves the store unchanged.
    pub fn put(&mut self, obj: StoredObject) -> (addr: Address)
        ensures
            final(self)@ == with_object(old(self)@, obj@),
            addr@ == address_of_object(obj@),
    {
        let addr = object_address(&obj);
        let n = self.objects.len();
        let mut i: usize = 0;
        while i < n
            invariant
                n == self.objects.len(),
                i <= n,
                *self == *old(self),
                addr@ == address_of_object(obj@),
                forall|j: int| 0 <= j < i ==> self@[j] != obj@,
            decreases n - i,
        {
            if object_eq(&self.objects[i], &obj) {
                proof {
                    assert(self@[i as int] == obj@);
                    assert(self@.contains(obj@));
                }
                return addr;
            }
            i += 1;
        }
        proof {
            assert(!self@.contains(obj@)) by {
                if self@.contains(obj@) {
                    let j = choose|j: int| 0 <= j < self@.len() && self@[j] == obj@;
                    assert(self@[j] != obj@);
                }
            };
        }
        self.objects.push(obj);
        proof {
            assert(final(self)@ =~= old(self)@.push(obj@));
        }
        addr
    }

    /// Fetch the object a given address denotes, if it was ever persisted.
    pub fn get(&self, addr: &Address) -> (r: Option<StoredObject>)
        ensures
            r is Some <==> contains_address(self@, addr@),
            r matches Some(o) ==> o@ == object_at(addr@) && self@.contains(o@),
    {
        let n = self.objects.len();
        let mut i: usize = 0;
        while i < n
            invariant
                n == self.objects.len(),
                i <= n,
                forall|j: int| 0 <= j < i ==> address_of_object(self@[j]) != addr@,
            decreases n - i,
        {
            if object_has_address(&self.objects[i], addr) {
                let o = clone_object(&self.objects[i]);
                proof {
                    assert(self@[i as int] == o@);
                    assert(self@.contains(o@));
                    assert(contains_address(self@, addr@));
                    lemma_addressing_invertible(o@);
                }
                return Some(o);
            }
            i += 1;
        }
        proof {
            assert(!contains_address(self@, addr@)) by {
                if contains_address(self@, addr@) {
                    let j = choose|j: int|
                        0 <= j < self@.len() && address_of_object(self@[j]) == addr@;
                    assert(address_of_object(self@[j]) != addr@);
                }
            };
        }
        None
    }

    /// Fetch an address together with the actions that causally reference it.
    /// Returns `None` for an address nothing was ever stored under; the shape
    /// of the response follows the kind of the stored object.
    pub fn get_details(&self, addr: &Address) -> (r: Option<Details>)
        ensures
            r is Some <==> contains_address(self@, addr@),
            r matches Some(d) ==> match d {
                Details::Entry(ed) => object_at(addr@) == (StoredObjectV::Entry {
                    entry: ed.entry@,
                }),
                Details::Record(rd) => {
                    &&& object_at(addr@) is Action
                    &&& rd.record@ == record_of(object_at(addr@))
                    &&& rd.record@.address == addr@
                    &&& record_views(rd.updates@) == update_records_of(self@, addr@)
                    &&& record_views(rd.deletes@) == delete_records_of(self@, addr@)
                },
            },
    {
        match self.get(addr) {
            None => None,
            Some(StoredObject::Entry { entry }) => Some(Details::Entry(EntryDetails { entry })),
            Some(StoredObject::Action { action }) => {
                let updates = self.collect_updates(addr);
                let deletes = self.collect_deletes(addr);
                let record = StoredRecord { address: clone_address(addr), action };
                proof {
                    lemma_object_at_address(addr@);
                }
                Some(Details::Record(RecordDetails { record, updates, deletes }))
            },
        }
    }

    /// All stored update actions whose predecessor reference is `addr`.
    fn collect_updates(&self, addr: &Address) -> (r: Vec<StoredRecord>)
        ensures
            record_views(r@) == update_records_of(self@, addr@),
    {
        let n = self.objects.len();
        let mut out: Vec<StoredRecord> = Vec::new();
        let mut i: usize = 0;
        proof {
            assert(self@.take(0) =~= Seq::<StoredObjectV>::empty());
            assert(record_views(out@) =~= update_records_of(self@.take(0), addr@));
        }
        while i < n
            invariant
                n == self.objects.len(),
                i <= n,
                record_views(out@) == update_records_of(self@.take(i as int), addr@),
            decreases n - i,
        {
            let ghost prefix = self@.take(i as int);
            let ob = &self.objects[i];
            match ob {
                StoredObject::Action { action } => match action {
                    Action::Update { previous, .. } => {
                        if address_eq(previous, addr) {
                            let rec = StoredRecord {
                                address: object_address(ob),
                                action: clone_action(action),
                            };
                            proof {
                                assert(rec@ == record_of(ob@));
                            }
                            out.push(rec);
                        }
                    },
                    _ => {},
                },
                _ => {},
            }
            proof {
                assert(self@.take(i + 1 as int).drop_last() =~= prefix);
                assert(self@.take(i + 1 as int).last() == self@[i as int]);
                assert(record_views(out@) =~= update_records_of(self@.take(i + 1 as int), addr@));
            }
            i += 1;
        }
        proof {
            assert(self@.take(n as int) =~= self@);
        }
        out
    }

    /// All stored delete actions whose target reference is `addr`.
    fn collect_deletes(&self, addr: &Address) -> (r: Vec<StoredRecord>)
        ensures
            record_views(r@) == delete_records_of(self@, addr@),
    {
        let n = self.objects.len();
        let mut out: Vec<StoredRecord> = Vec::new();
        let mut i: usize = 0;
        proof {
            assert(self@.take(0) =~= Seq::<StoredObjectV>::empty());
            assert(record_views(out@) =~= delete_records_of(self@.take(0), addr@));
        }
        while i < n
            invariant
                n == self.objects.len(),
                i <= n,
                record_views(out@) == delete_records_of(self@.take(i as int), addr@),
            decreases n - i,
        {
            let ghost prefix = self@.take(i as int);
            let ob = &self.objects[i];
            match ob {
                StoredObject::Action { action } => match action {
                    Action::Delete { target } => {
                        if address_eq(target, addr) {
                            let rec = StoredRecord {
                                address: object_address(ob),
                                action: clone_action(action),
                            };
                            proof {
                                assert(rec@ == record_of(ob@));
                            }
                            out.push(rec);
                        }
                    },
                    _ => {},
                },
                _ => {},
            }
            proof {
                assert(self@.take(i + 1 as int).drop_last() =~= prefix);
                assert(self@.take(i + 1 as int).last() == self@[i as int]);
                assert(record_views(out@) =~= delete_records_of(self@.take(i + 1 as int), addr@));
            }
            i += 1;
        }
        proof {
            assert(self@.take(n as int) =~= self@);
        }
        out
    }
}

/// Whether a stored object's content-derived address is `a`.
pub fn object_has_address(o: &StoredObject, a: &Address) -> (r: bool)
    ensures
        r == (address_of_object(o@) == a@),
{
    let oa = object_address(o);
    address_eq(&oa, a)
}

} // verus!
