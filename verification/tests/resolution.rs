//! Chain resolution: one-hop steps, multi-hop resolution, tombstones and
//! forks, through the full lifecycle of a post.

use blog::data::address_eq;
use blog::data::clone_address;
use blog::data::Address;
use blog::data::Entry;
use blog::data::Post;
use blog::post::create_post;
use blog::post::delete_post;
use blog::post::update_post;
use blog::post::UpdatePostInput;
use blog::resolver::resolve_current;
use blog::resolver::resolve_step;
use blog::resolver::ResolvedState;
use blog::resolver::ResolveStep;
use blog::store::ContentStore;
use blog::store::Details;

fn make_post(title: &str, body: &str) -> Post {
    Post { title: String::from(title), body: String::from(body) }
}

fn update_input(previous: &Address, title: &str, body: &str) -> UpdatePostInput {
    UpdatePostInput {
        original_post_hash: clone_address(previous),
        previous_post_hash: clone_address(previous),
        updated_post: make_post(title, body),
    }
}

fn post_title(entry: &Entry) -> String {
    match entry {
        Entry::Post(p) => p.title.clone(),
        Entry::Comment(_) => panic!("expected a post entry"),
    }
}

#[test]
fn resolve_unknown_address_is_not_found() {
    let store = ContentStore::new();
    let unknown = Address::Create { entry: Entry::Post(make_post("A", "B")) };
    assert!(matches!(resolve_step(&store, &unknown), ResolveStep::NotFound));
    assert!(matches!(resolve_current(&store, &unknown), ResolvedState::NotFound));
}

#[test]
fn fresh_create_resolves_live_at_itself() {
    let mut store = ContentStore::new();
    let rec = create_post(&mut store, make_post("A", "B")).unwrap();
    match resolve_current(&store, &rec.address) {
        ResolvedState::Live { head, entry } => {
            assert!(address_eq(&head, &rec.address));
            match entry {
                Entry::Post(p) => assert_eq!(p.title, "A"),
                Entry::Comment(_) => panic!("expected a post entry"),
            }
        },
        _ => panic!("a fresh create must resolve live"),
    }
}

#[test]
fn update_advances_head_one_hop_at_a_time() {
    let mut store = ContentStore::new();
    let rec1 = create_post(&mut store, make_post("A", "B")).unwrap();
    let rec2 = update_post(&mut store, update_input(&rec1.address, "A2", "B")).unwrap();

    // one hop: the superseded action advances to the new head
    match resolve_step(&store, &rec1.address) {
        ResolveStep::Advance { next } => assert!(address_eq(&next, &rec2.address)),
        _ => panic!("a superseded action must advance"),
    }
    // repeated hops settle at the new head, which carries the new entry
    match resolve_current(&store, &rec1.address) {
        ResolvedState::Live { head, entry } => {
            assert!(address_eq(&head, &rec2.address));
            match entry {
                Entry::Post(p) => assert_eq!(p.title, "A2"),
                Entry::Comment(_) => panic!("expected a post entry"),
            }
        },
        _ => panic!("an updated chain with no delete must resolve live"),
    }
}

#[test]
fn post_lifecycle_update_delete_fork() {
    let mut store = ContentStore::new();

    // create Post{title: "A", body: "B"} -> addr1, live
    let rec1 = create_post(&mut store, make_post("A", "B")).unwrap();
    let addr1 = clone_address(&rec1.address);
    assert!(matches!(resolve_current(&store, &addr1), ResolvedState::Live { .. }));

    // update at addr1 -> addr2; the head advances to addr2
    let rec2 = update_post(&mut store, update_input(&addr1, "A2", "B")).unwrap();
    match resolve_current(&store, &addr1) {
        ResolvedState::Live { head, entry } => {
            assert!(address_eq(&head, &rec2.address));
            assert_eq!(post_title(&entry), "A2");
        },
        _ => panic!("the chain must still be live after an update"),
    }

    // delete at addr2 -> addr3; resolving addr1 now reports deleted
    let addr3 = delete_post(&mut store, clone_address(&rec2.address)).unwrap();
    assert!(matches!(resolve_step(&store, &rec2.address), ResolveStep::Deleted));
    assert!(matches!(resolve_current(&store, &addr1), ResolvedState::Deleted));
    // the delete action's own address also resolves as deleted
    assert!(matches!(resolve_current(&store, &addr3), ResolvedState::Deleted));

    // a further update on addr1 is permitted to succeed: a fork
    let rec4 = update_post(&mut store, update_input(&addr1, "A3", "B")).unwrap();
    // addr1's details now show two referencing updates
    match store.get_details(&addr1) {
        Some(Details::Record(rd)) => {
            assert_eq!(rd.updates.len(), 2);
            assert!(address_eq(&rd.updates[0].address, &rec2.address));
            assert!(address_eq(&rd.updates[1].address, &rec4.address));
        },
        _ => panic!("the created action must have record details"),
    }
    // the resolver reports the ambiguity rather than silently picking one
    match resolve_current(&store, &addr1) {
        ResolvedState::Forked { at, updates } => {
            assert!(address_eq(&at, &addr1));
            assert_eq!(updates.len(), 2);
        },
        _ => panic!("a forked chain must be reported as forked"),
    }
}

#[test]
fn deep_chain_resolves_to_last_head() {
    let mut store = ContentStore::new();
    let rec1 = create_post(&mut store, make_post("t0", "b")).unwrap();
    let mut head = clone_address(&rec1.address);
    for i in 1..6 {
        let rec = update_post(&mut store, update_input(&head, &format!("t{}", i), "b")).unwrap();
        head = rec.address;
    }
    match resolve_current(&store, &rec1.address) {
        ResolvedState::Live { head: resolved, entry } => {
            assert!(address_eq(&resolved, &head));
            match entry {
                Entry::Post(p) => assert_eq!(p.title, "t5"),
                Entry::Comment(_) => panic!("expected a post entry"),
            }
        },
        _ => panic!("a linear chain with no delete must resolve live"),
    }
}

#[test]
fn entry_address_does_not_resolve_as_action() {
    let mut store = ContentStore::new();
    create_post(&mut store, make_post("A", "B")).unwrap();
    let entry_addr = blog::data::entry_address(&Entry::Post(make_post("A", "B")));
    // the entry object is stored, but it is no action: the resolver reports
    // the address as unresolvable
    assert!(matches!(resolve_step(&store, &entry_addr), ResolveStep::NotFound));
}
