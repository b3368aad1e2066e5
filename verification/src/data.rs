//! Data model: entries, actions, and content-derived addresses.
//!
//! Every stored object is immutable and is named by a *content-derived
//! address*: the address is the canonical content of the object itself, so
//! identical content always yields the identical address and two distinct
//! objects can never collide. A digest over a canonical serialization is one
//! implementation of this idealization; the model keeps the canonical content
//! as the address, which makes collision freedom provable
//! (`lemma_address_injective`).

use vstd::prelude::*;

verus! {

// ----------------------------------------------------------------------
// Mathematical model
// ----------------------------------------------------------------------
/// Mathematical content of a post payload.
pub struct PostV {
    pub title: Seq<char>,
    pub body: Seq<char>,
}

/// Mathematical content of a comment payload.
pub struct CommentV {
    pub text: Seq<char>,
    pub target: AddressV,
}

/// Mathematical content of an entry: the immutable payload of one kind.
pub enum EntryV {
    Post { title: Seq<char>, body: Seq<char> },
    Comment { text: Seq<char>, target: Box<AddressV> },
}

/// A content-derived address. The address of an object is its canonical
/// content, so addressing is deterministic and collision-free.
pub enum AddressV {
    Entry { entry: EntryV },
    Create { entry: EntryV },
    Update { previous: Box<AddressV>, entry: EntryV },
    Delete { target: Box<AddressV> },
}

/// Mathematical content of an action: one immutable event over an entry.
pub enum ActionV {
    Create { entry: EntryV },
    Update { previous: AddressV, entry: EntryV },
    Delete { target: AddressV },
}

/// One immutable object held by the content store.
pub enum StoredObjectV {
    Entry { entry: EntryV },
    Action { action: ActionV },
}

/// An action together with its address, as returned by the operations.
pub struct StoredRecordV {
    pub address: AddressV,
    pub action: ActionV,
}

pub open spec fn post_entry(p: PostV) -> EntryV {
    EntryV::Post { title: p.title, body: p.body }
}

pub open spec fn comment_entry(c: CommentV) -> EntryV {
    EntryV::Comment { text: c.text, target: Box::new(c.target) }
}

/// The content-derived address of an action.
pub open spec fn address_of_action(a: ActionV) -> AddressV {
    match a {
        ActionV::Create { entry } => AddressV::Create { entry },
        ActionV::Update { previous, entry } => AddressV::Update {
            previous: Box::new(previous),
            entry,
        },
        ActionV::Delete { target } => AddressV::Delete { target: Box::new(target) },
    }
}

/// The content-derived address of a stored object.
pub open spec fn address_of_object(o: StoredObjectV) -> AddressV {
    match o {
        StoredObjectV::Entry { entry } => AddressV::Entry { entry },
        StoredObjectV::Action { action } => address_of_action(action),
    }
}

/// The unique object a given address denotes.
pub open spec fn object_at(a: AddressV) -> StoredObjectV {
    match a {
        AddressV::Entry { entry } => StoredObjectV::Entry { entry },
        AddressV::Create { entry } => StoredObjectV::Action {
            action: ActionV::Create { entry },
        },
        AddressV::Update { previous, entry } => StoredObjectV::Action {
            action: ActionV::Update { previous: *previous, entry },
        },
        AddressV::Delete { target } => StoredObjectV::Action {
            action: ActionV::Delete { target: *target },
        },
    }
}

/// Addressing is invertible: an address determines its object completely.
pub proof fn lemma_addressing_invertible(o: StoredObjectV)
    ensures
        object_at(address_of_object(o)) == o,
{
}

/// Content addressing is collision-free: two objects with the same address
/// are the same object.
pub proof fn lemma_address_injective(o1: StoredObjectV, o2: StoredObjectV)
    requires
        address_of_object(o1) == address_of_object(o2),
    ensures
        o1 == o2,
{
    lemma_addressing_invertible(o1);
    lemma_addressing_invertible(o2);
}

/// How many predecessor links an address stacks up. Each update or delete
/// stands strictly above the action it references.
pub open spec fn addr_height(a: AddressV) -> nat
    decreases a,
{
    match a {
        AddressV::Entry { .. } => 0,
        AddressV::Create { .. } => 0,
        AddressV::Update { previous, .. } => addr_height(*previous) + 1,
        AddressV::Delete { target } => addr_height(*target) + 1,
    }
}

/// The entry an action carries, if any (deletes carry none).
pub open spec fn action_entry(a: ActionV) -> Option<EntryV> {
    match a {
        ActionV::Create { entry } => Some(entry),
        ActionV::Update { entry, .. } => Some(entry),
        ActionV::Delete { .. } => None,
    }
}

// ----------------------------------------------------------------------
// Payload validity
// ----------------------------------------------------------------------
pub open spec fn post_valid(p: PostV) -> bool {
    p.title.len() > 0 && p.body.len() > 0
}

pub open spec fn comment_valid(c: CommentV) -> bool {
    c.text.len() > 0
}

pub open spec fn entry_valid(e: EntryV) -> bool {
    match e {
        EntryV::Post { title, body } => title.len() > 0 && body.len() > 0,
        EntryV::Comment { text, .. } => text.len() > 0,
    }
}

// ----------------------------------------------------------------------
// Executable counterparts
// ----------------------------------------------------------------------
/// A post payload: title and body.
#[derive(Debug)]
pub struct Post {
    pub title: String,
    pub body: String,
}

/// A comment payload: its text and the address of the action it targets.
#[derive(Debug)]
pub struct Comment {
    pub text: String,
    pub target: Box<Address>,
}

/// An immutable entry payload of one kind.
#[derive(Debug)]
pub enum Entry {
    Post(Post),
    Comment(Comment),
}

/// A content-derived address (see [`AddressV`]).
#[derive(Debug)]
pub enum Address {
    Entry { entry: Entry },
    Create { entry: Entry },
    Update { previous: Box<Address>, entry: Entry },
    Delete { target: Box<Address> },
}

/// An immutable action over an entry (see [`ActionV`]).
#[derive(Debug)]
pub enum Action {
    Create { entry: Entry },
    Update { previous: Address, entry: Entry },
    Delete { target: Address },
}

/// One immutable object held by the content store.
#[derive(Debug)]
pub enum StoredObject {
    Entry { entry: Entry },
    Action { action: Action },
}

/// An action together with its address.
#[derive(Debug)]
pub struct StoredRecord {
    pub address: Address,
    pub action: Action,
}

pub open spec fn view_entry(e: Entry) -> EntryV
    decreases e,
{
    match e {
        Entry::Post(p) => EntryV::Post { title: p.title@, body: p.body@ },
        Entry::Comment(c) => EntryV::Comment {
            text: c.text@,
            target: Box::new(view_address(*c.target)),
        },
    }
}

pub open spec fn view_address(a: Address) -> AddressV
    decreases a,
{
    match a {
        Address::Entry { entry } => AddressV::Entry { entry: view_entry(entry) },
        Address::Create { entry } => AddressV::Create { entry: view_entry(entry) },
        Address::Update { previous, entry } => AddressV::Update {
            previous: Box::new(view_address(*previous)),
            entry: view_entry(entry),
        },
        Address::Delete { target } => AddressV::Delete {
            target: Box::new(view_address(*target)),
        },
    }
}

impl View for Post {
    type V = PostV;

    open spec fn view(&self) -> PostV {
        PostV { title: self.title@, body: self.body@ }
    }
}

impl View for Comment {
    type V = CommentV;

    open spec fn view(&self) -> CommentV {
        CommentV { text: self.text@, target: view_address(*self.target) }
    }
}

impl View for Entry {
    type V = EntryV;

    open spec fn view(&self) -> EntryV {
        view_entry(*self)
    }
}

impl View for Address {
    type V = AddressV;

    open spec fn view(&self) -> AddressV {
        view_address(*self)
    }
}

impl View for Action {
    type V = ActionV;

    open spec fn view(&self) -> ActionV {
        match *self {
            Action::Create { entry } => ActionV::Create { entry: view_entry(entry) },
            Action::Update { previous, entry } => ActionV::Update {
                previous: view_address(previous),
                entry: view_entry(entry),
            },
            Action::Delete { target } => ActionV::Delete { target: view_address(target) },
        }
    }
}

impl View for StoredObject {
    type V = StoredObjectV;

    open spec fn view(&self) -> StoredObjectV {
        match *self {
            StoredObject::Entry { entry } => StoredObjectV::Entry { entry: view_entry(entry) },
            StoredObject::Action { action } => StoredObjectV::Action { action: action@ },
        }
    }
}

impl View for StoredRecord {
    type V = StoredRecordV;

    open spec fn view(&self) -> StoredRecordV {
        StoredRecordV { address: self.address@, action: self.action@ }
    }
}

// ----------------------------------------------------------------------
// Validation
// ----------------------------------------------------------------------
/// A post is valid when its identifying fields are non-empty.
pub fn validate_post(p: &Post) -> (r: bool)
    ensures
        r == post_valid(p@),
{
    !p.title.as_str().is_empty() && !p.body.as_str().is_empty()
}

/// A comment is valid when its text is non-empty.
pub fn validate_comment(c: &Comment) -> (r: bool)
    ensures
        r == comment_valid(c@),
{
    !c.text.as_str().is_empty()
}

// ----------------------------------------------------------------------
// Equality of content (decides equality of the mathematical views)
// ----------------------------------------------------------------------
pub fn entry_eq(a: &Entry, b: &Entry) -> (r: bool)
    ensures
        r == (a@ == b@),
    decreases *a,
{
    match (a, b) {
        (Entry::Post(p1), Entry::Post(p2)) => {
            p1.title == p2.title && p1.body == p2.body
        },
        (Entry::Comment(c1), Entry::Comment(c2)) => {
            c1.text == c2.text && address_eq(&*c1.target, &*c2.target)
        },
        _ => false,
    }
}

pub fn address_eq(a: &Address, b: &Address) -> (r: bool)
    ensures
        r == (a@ == b@),
    decreases *a,
{
    match (a, b) {
        (Address::Entry { entry: e1 }, Address::Entry { entry: e2 }) => entry_eq(e1, e2),
        (Address::Create { entry: e1 }, Address::Create { entry: e2 }) => entry_eq(e1, e2),
        (
            Address::Update { previous: p1, entry: e1 },
            Address::Update { previous: p2, entry: e2 },
        ) => address_eq(&**p1, &**p2) && entry_eq(e1, e2),
        (Address::Delete { target: t1 }, Address::Delete { target: t2 }) => {
            address_eq(&**t1, &**t2)
        },
        _ => false,
    }
}

pub fn action_eq(a: &Action, b: &Action) -> (r: bool)
    ensures
        r == (a@ == b@),
{
    match (a, b) {
        (Action::Create { entry: e1 }, Action::Create { entry: e2 }) => entry_eq(e1, e2),
        (
            Action::Update { previous: p1, entry: e1 },
            Action::Update { previous: p2, entry: e2 },
        ) => address_eq(p1, p2) && entry_eq(e1, e2),
        (Action::Delete { target: t1 }, Action::Delete { target: t2 }) => address_eq(t1, t2),
        _ => false,
    }
}

pub fn object_eq(a: &StoredObject, b: &StoredObject) -> (r: bool)
    ensures
        r == (a@ == b@),
{
    match (a, b) {
        (StoredObject::Entry { entry: e1 }, StoredObject::Entry { entry: e2 }) => {
            entry_eq(e1, e2)
        },
        (StoredObject::Action { action: a1 }, StoredObject::Action { action: a2 }) => {
            action_eq(a1, a2)
        },
        _ => false,
    }
}

// ----------------------------------------------------------------------
// Cloning (content is immutable; a clone is the same content)
// ----------------------------------------------------------------------
pub fn clone_entry(e: &Entry) -> (r: Entry)
    ensures
        r == *e,
    decreases *e,
{
    match e {
        Entry::Post(Post { title, body }) => Entry::Post(
            Post { title: title.clone(), body: body.clone() },
        ),
        Entry::Comment(Comment { text, target }) => Entry::Comment(
            Comment { text: text.clone(), target: Box::new(clone_address(&**target)) },
        ),
    }
}

pub fn clone_address(a: &Address) -> (r: Address)
    ensures
        r == *a,
    decreases *a,
{
    match a {
        Address::Entry { entry } => Address::Entry { entry: clone_entry(entry) },
        Address::Create { entry } => Address::Create { entry: clone_entry(entry) },
        Address::Update { previous, entry } => Address::Update {
            previous: Box::new(clone_address(&**previous)),
            entry: clone_entry(entry),
        },
        Address::Delete { target } => Address::Delete {
            target: Box::new(clone_address(&**target)),
        },
    }
}

pub fn clone_action(a: &Action) -> (r: Action)
    ensures
        r == *a,
{
    match a {
        Action::Create { entry } => Action::Create { entry: clone_entry(entry) },
        Action::Update { previous, entry } => Action::Update {
            previous: clone_address(previous),
            entry: clone_entry(entry),
        },
        Action::Delete { target } => Action::Delete { target: clone_address(target) },
    }
}

pub fn clone_object(o: &StoredObject) -> (r: StoredObject)
    ensures
        r == *o,
{
    match o {
        StoredObject::Entry { entry } => StoredObject::Entry { entry: clone_entry(entry) },
        StoredObject::Action { action } => StoredObject::Action { action: clone_action(action) },
    }
}

pub fn clone_record(r: &StoredRecord) -> (res: StoredRecord)
    ensures
        res == *r,
{
    StoredRecord { address: clone_address(&r.address), action: clone_action(&r.action) }
}

// ----------------------------------------------------------------------
// Address computation
// ----------------------------------------------------------------------
/// The content-derived address of an entry.
pub fn entry_address(e: &Entry) -> (a: Address)
    ensures
        a@ == (AddressV::Entry { entry: e@ }),
{
    Address::Entry { entry: clone_entry(e) }
}

/// The content-derived address of an action.
pub fn action_address(act: &Action) -> (a: Address)
    ensures
        a@ == address_of_action(act@),
{
    match act {
        Action::Create { entry } => Address::Create { entry: clone_entry(entry) },
        Action::Update { previous, entry } => Address::Update {
            previous: Box::new(clone_address(previous)),
            entry: clone_entry(entry),
        },
        Action::Delete { target } => Address::Delete {
            target: Box::new(clone_address(target)),
        },
    }
}

/// The content-derived address of a stored object.
pub fn object_address(o: &StoredObject) -> (a: Address)
    ensures
        a@ == address_of_object(o@),
{
    match o {
        StoredObject::Entry { entry } => entry_address(entry),
        StoredObject::Action { action } => action_address(action),
    }
}

} // verus!
