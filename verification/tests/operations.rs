//! The entry operations: create/read/update/delete for both kinds, their
//! error cases, and address determinism.

use blog::chain::BlogError;
use blog::data::address_eq;
use blog::data::clone_address;
use blog::data::entry_address;
use blog::data::Action;
use blog::data::Address;
use blog::data::Comment;
use blog::data::Entry;
use blog::data::Post;
use blog::post::create_post;
use blog::post::delete_post;
use blog::post::get_original_post;
use blog::post::update_post;
use blog::post::UpdatePostInput;
use blog::comment::create_comment;
use blog::comment::delete_comment;
use blog::comment::get_original_comment;
use blog::comment::update_comment;
use blog::comment::UpdateCommentInput;
use blog::store::ContentStore;
use blog::store::Details;

fn make_post(title: &str, body: &str) -> Post {
    Post { title: String::from(title), body: String::from(body) }
}

fn post_fields(action: &Action) -> (String, String) {
    let entry = match action {
        Action::Create { entry } => entry,
        Action::Update { entry, .. } => entry,
        Action::Delete { .. } => panic!("expected an entry-carrying action"),
    };
    match entry {
        Entry::Post(p) => (p.title.clone(), p.body.clone()),
        Entry::Comment(_) => panic!("expected a post entry"),
    }
}

fn comment_text(action: &Action) -> String {
    let entry = match action {
        Action::Create { entry } => entry,
        Action::Update { entry, .. } => entry,
        Action::Delete { .. } => panic!("expected an entry-carrying action"),
    };
    match entry {
        Entry::Comment(c) => c.text.clone(),
        Entry::Post(_) => panic!("expected a comment entry"),
    }
}

#[test]
fn create_post_round_trip() {
    let mut store = ContentStore::new();
    let rec = create_post(&mut store, make_post("A", "B")).unwrap();
    let fetched = get_original_post(&store, &rec.address).unwrap();
    let fetched = fetched.expect("a freshly created record must be readable");
    assert!(address_eq(&fetched.address, &rec.address));
    let (title, body) = post_fields(&fetched.action);
    assert_eq!(title, "A");
    assert_eq!(body, "B");
}

#[test]
fn get_original_post_unknown_address() {
    let store = ContentStore::new();
    let unknown = Address::Create { entry: Entry::Post(make_post("A", "B")) };
    let fetched = get_original_post(&store, &unknown).unwrap();
    assert!(fetched.is_none());
}

#[test]
fn get_original_post_entry_address_is_malformed() {
    let mut store = ContentStore::new();
    create_post(&mut store, make_post("A", "B")).unwrap();
    let entry_addr = entry_address(&Entry::Post(make_post("A", "B")));
    let err = get_original_post(&store, &entry_addr).unwrap_err();
    assert_eq!(err, BlogError::MalformedResponse);
}

#[test]
fn update_post_returns_new_entry_and_supersedes() {
    let mut store = ContentStore::new();
    let rec1 = create_post(&mut store, make_post("A", "B")).unwrap();
    let addr1 = clone_address(&rec1.address);
    let rec2 = update_post(
        &mut store,
        UpdatePostInput {
            original_post_hash: clone_address(&addr1),
            previous_post_hash: clone_address(&addr1),
            updated_post: make_post("A2", "B2"),
        },
    )
    .unwrap();
    let (title, body) = post_fields(&rec2.action);
    assert_eq!(title, "A2");
    assert_eq!(body, "B2");
    // the superseded address shows exactly one referencing update: the new one
    match store.get_details(&addr1) {
        Some(Details::Record(rd)) => {
            assert_eq!(rd.updates.len(), 1);
            assert!(address_eq(&rd.updates[0].address, &rec2.address));
            assert_eq!(rd.deletes.len(), 0);
        },
        _ => panic!("the created action must have record details"),
    }
}

#[test]
fn update_post_unresolvable_previous_is_not_found() {
    let mut store = ContentStore::new();
    let unknown = Address::Create { entry: Entry::Post(make_post("X", "Y")) };
    let err = update_post(
        &mut store,
        UpdatePostInput {
            original_post_hash: clone_address(&unknown),
            previous_post_hash: unknown,
            updated_post: make_post("A2", "B2"),
        },
    )
    .unwrap_err();
    assert_eq!(err, BlogError::NotFound);
    assert_eq!(store.object_count(), 0);
}

#[test]
fn delete_post_unresolvable_is_not_found() {
    let mut store = ContentStore::new();
    let unknown = Address::Create { entry: Entry::Post(make_post("A", "B")) };
    let err = delete_post(&mut store, unknown).unwrap_err();
    assert_eq!(err, BlogError::NotFound);
    assert_eq!(store.object_count(), 0);
}

#[test]
fn delete_post_tombstones_target() {
    let mut store = ContentStore::new();
    let rec1 = create_post(&mut store, make_post("A", "B")).unwrap();
    let addr1 = clone_address(&rec1.address);
    let delete_addr = delete_post(&mut store, clone_address(&addr1)).unwrap();
    match store.get_details(&addr1) {
        Some(Details::Record(rd)) => {
            assert_eq!(rd.deletes.len(), 1);
            assert!(address_eq(&rd.deletes[0].address, &delete_addr));
        },
        _ => panic!("the created action must have record details"),
    }
}

#[test]
fn create_post_validation_error() {
    let mut store = ContentStore::new();
    let err = create_post(&mut store, make_post("A", "")).unwrap_err();
    assert_eq!(err, BlogError::ValidationError);
    let err = create_post(&mut store, make_post("", "B")).unwrap_err();
    assert_eq!(err, BlogError::ValidationError);
    assert_eq!(store.object_count(), 0);
}

#[test]
fn update_post_validation_error_before_store_interaction() {
    let mut store = ContentStore::new();
    let rec1 = create_post(&mut store, make_post("A", "B")).unwrap();
    let count = store.object_count();
    let err = update_post(
        &mut store,
        UpdatePostInput {
            original_post_hash: clone_address(&rec1.address),
            previous_post_hash: clone_address(&rec1.address),
            updated_post: make_post("", ""),
        },
    )
    .unwrap_err();
    assert_eq!(err, BlogError::ValidationError);
    assert_eq!(store.object_count(), count);
}

#[test]
fn create_post_identical_content_same_entry_address() {
    let mut store = ContentStore::new();
    let rec1 = create_post(&mut store, make_post("A", "B")).unwrap();
    let count = store.object_count();
    let rec2 = create_post(&mut store, make_post("A", "B")).unwrap();
    // both creates succeed, the entry portion has the identical address, and
    // re-putting identical content left the store unchanged
    let e1 = entry_address(&Entry::Post(make_post("A", "B")));
    let e2 = entry_address(&Entry::Post(make_post("A", "B")));
    assert!(address_eq(&e1, &e2));
    assert!(address_eq(&rec1.address, &rec2.address));
    assert_eq!(store.object_count(), count);
}

#[test]
fn comment_round_trip_update_and_delete() {
    let mut store = ContentStore::new();
    let post_rec = create_post(&mut store, make_post("A", "B")).unwrap();
    let target = clone_address(&post_rec.address);

    let comment = Comment { text: String::from("first"), target: Box::new(target) };
    let rec = create_comment(&mut store, comment).unwrap();
    let fetched = get_original_comment(&store, &rec.address).unwrap().unwrap();
    assert!(address_eq(&fetched.address, &rec.address));
    assert_eq!(comment_text(&fetched.action), "first");

    let rec2 = update_comment(
        &mut store,
        UpdateCommentInput {
            previous_comment_hash: clone_address(&rec.address),
            updated_comment: Comment {
                text: String::from("second"),
                target: Box::new(clone_address(&post_rec.address)),
            },
        },
    )
    .unwrap();
    assert_eq!(comment_text(&rec2.action), "second");

    let delete_addr = delete_comment(&mut store, clone_address(&rec2.address)).unwrap();
    match store.get_details(&rec2.address) {
        Some(Details::Record(rd)) => {
            assert_eq!(rd.deletes.len(), 1);
            assert!(address_eq(&rd.deletes[0].address, &delete_addr));
        },
        _ => panic!("the comment action must have record details"),
    }
}

#[test]
fn create_comment_validation_error() {
    let mut store = ContentStore::new();
    let target = Address::Create { entry: Entry::Post(make_post("A", "B")) };
    let err = create_comment(
        &mut store,
        Comment { text: String::from(""), target: Box::new(target) },
    )
    .unwrap_err();
    assert_eq!(err, BlogError::ValidationError);
    assert_eq!(store.object_count(), 0);
}

#[test]
fn update_comment_unresolvable_previous_is_not_found() {
    let mut store = ContentStore::new();
    let unknown = Address::Create { entry: Entry::Post(make_post("A", "B")) };
    let err = update_comment(
        &mut store,
        UpdateCommentInput {
            previous_comment_hash: clone_address(&unknown),
            updated_comment: Comment { text: String::from("t"), target: Box::new(unknown) },
        },
    )
    .unwrap_err();
    assert_eq!(err, BlogError::NotFound);
    assert_eq!(store.object_count(), 0);
}

#[test]
fn delete_comment_unresolvable_is_not_found() {
    let mut store = ContentStore::new();
    let unknown = Address::Create {
        entry: Entry::Comment(Comment {
            text: String::from("t"),
            target: Box::new(Address::Create { entry: Entry::Post(make_post("A", "B")) }),
        }),
    };
    let err = delete_comment(&mut store, unknown).unwrap_err();
    assert_eq!(err, BlogError::NotFound);
}
