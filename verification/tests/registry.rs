use member_registry::dense::DenseRegistry;
use member_registry::errors::Error;
use member_registry::events::Event;
use member_registry::relink::RelinkRegistry;
use member_registry::store::KvStore;

#[test]
fn add_member_works() {
    let mut dense = DenseRegistry::new();
    assert!(dense.add_member(1, 1).is_ok());
    assert!(dense.events.contains(&Event::MemberAdded(1, 1)));

    assert!(dense.add_member(1, 2).is_ok());
    assert!(dense.events.contains(&Event::MemberAdded(2, 2)));

    let mut relink = RelinkRegistry::new();
    assert_eq!(relink.add_member(1, 1), 1);
    assert!(relink.events.contains(&Event::MemberAdded(1, 1)));
    assert_eq!(relink.add_member(1, 2), 2);
    assert!(relink.events.contains(&Event::MemberAdded(2, 2)));
}

#[test]
fn remove_member_works() {
    let mut dense = DenseRegistry::new();

    assert_eq!(dense.remove_member_bunded(1, 4), Err(Error::NotFound));
    assert!(dense.add_member(1, 5).is_ok());
    assert!(dense.add_member(1, 2).is_ok());
    assert!(dense.add_member(1, 6).is_ok());

    assert!(dense.remove_member_bunded(1, 3).is_ok());
    assert!(dense.events.contains(&Event::MemberRemoved(6, 3)));

    assert!(dense.remove_member_bunded(1, 1).is_ok());
    assert!(dense.events.contains(&Event::MemberRemoved(5, 1)));
}

#[test]
fn remove_member_linked_works() {
    let mut relink = RelinkRegistry::new();
    for account in 1..=6u64 {
        relink.add_member(1, account);
    }

    assert!(relink.remove_member_linked(1, 3).is_ok());
    assert!(relink.events.contains(&Event::MemberRemoved(3, 3)));

    assert!(relink.remove_member_linked(1, 3).is_ok());
    assert!(relink.events.contains(&Event::MemberRemoved(6, 3)));
}

#[test]
fn dense_relocates_highest_record() {
    // Three records, then a removal in the middle of the range: the
    // highest record fills the vacated slot and the counter shrinks.
    let mut dense = DenseRegistry::new();
    assert_eq!(dense.add_member(1, 10), Ok(1));
    assert_eq!(dense.add_member(1, 20), Ok(2));
    assert_eq!(dense.add_member(1, 30), Ok(3));

    assert_eq!(dense.remove_member_bunded(1, 1), Ok(10));
    assert_eq!(dense.store.get(1), 30);
    assert_eq!(dense.counter, 2);
    assert!(dense.events.contains(&Event::MemberRemoved(10, 1)));
}

#[test]
fn dense_swap_compaction_repeats() {
    // Starting empty, a removal fails; after three adds, removing index 1
    // twice relocates first the third and then the second record into
    // slot 1, exactly as swap-compaction prescribes.
    let mut dense = DenseRegistry::new();
    assert_eq!(dense.remove_member_bunded(1, 4), Err(Error::NotFound));

    assert_eq!(dense.add_member(1, 10), Ok(1));
    assert_eq!(dense.add_member(1, 20), Ok(2));
    assert_eq!(dense.add_member(1, 30), Ok(3));

    assert_eq!(dense.remove_member_bunded(1, 1), Ok(10));
    assert_eq!(dense.store.get(1), 30);
    assert_eq!(dense.counter, 2);

    assert_eq!(dense.remove_member_bunded(1, 1), Ok(30));
    assert_eq!(dense.store.get(1), 20);
    assert_eq!(dense.counter, 1);
    assert!(!dense.store.contains(2));
}

#[test]
fn dense_not_found_changes_nothing() {
    let mut dense = DenseRegistry::new();
    assert_eq!(dense.add_member(1, 7), Ok(1));
    assert_eq!(dense.add_member(1, 8), Ok(2));
    let events_before = dense.events.len();

    assert_eq!(dense.remove_member_bunded(1, 3), Err(Error::NotFound));
    assert_eq!(dense.counter, 2);
    assert_eq!(dense.store.get(1), 7);
    assert_eq!(dense.store.get(2), 8);
    assert_eq!(dense.events.len(), events_before);
}

#[test]
fn dense_overflow_guard() {
    // A registry whose counter has reached the largest index refuses the
    // next add and stays as it was.
    let mut dense = DenseRegistry {
        store: KvStore::new(),
        counter: u32::MAX,
        events: Vec::new(),
    };
    assert_eq!(dense.add_member(1, 9), Err(Error::Overflow));
    assert_eq!(dense.counter, u32::MAX);
    assert!(dense.events.is_empty());
}

#[test]
fn dense_add_remove_round_trip() {
    // Adding a record and removing it at the returned index restores the
    // previous counter and membership.
    let mut dense = DenseRegistry::new();
    assert_eq!(dense.add_member(1, 10), Ok(1));
    assert_eq!(dense.add_member(1, 20), Ok(2));

    let index = dense.add_member(1, 30).unwrap();
    assert_eq!(dense.remove_member_bunded(1, index), Ok(30));

    assert_eq!(dense.counter, 2);
    assert_eq!(dense.store.get(1), 10);
    assert_eq!(dense.store.get(2), 20);
    assert!(!dense.store.contains(3));
}

#[test]
fn dense_counter_counts_records() {
    // Between operations the counter equals the number of stored records,
    // and exactly the keys 1..=counter are occupied.
    let mut dense = DenseRegistry::new();
    for account in [5u64, 6, 7, 8] {
        dense.add_member(1, account).unwrap();
    }
    dense.remove_member_bunded(1, 2).unwrap();
    dense.remove_member_bunded(1, 1).unwrap();

    assert_eq!(dense.counter, 2);
    for key in 1..=dense.counter {
        assert!(dense.store.contains(key));
    }
    assert!(!dense.store.contains(0));
    assert!(!dense.store.contains(3));
    assert!(!dense.store.contains(4));
}

#[test]
fn relink_dangling_head() {
    // Six records, head at 6. Removing index 3 relocates the head record
    // into slot 3 and leaves slot 6 empty, but the head still reads 6.
    // Removing index 3 again removes the relocated record; with the head
    // slot empty, no record is fabricated for relocation.
    let mut relink = RelinkRegistry::new();
    for account in 1..=6u64 {
        let index = relink.add_member(1, account);
        assert_eq!(index as u64, account);
    }
    assert_eq!(relink.head, 6);

    assert_eq!(relink.remove_member_linked(1, 3), Ok(3));
    assert_eq!(relink.store.get(3), 6);
    assert!(!relink.store.contains(6));
    assert_eq!(relink.head, 6);

    assert_eq!(relink.remove_member_linked(1, 3), Ok(6));
    assert!(!relink.store.contains(3));
    assert!(!relink.store.contains(6));
    assert_eq!(relink.head, 6);
    for key in [1u32, 2, 4, 5] {
        assert!(relink.store.contains(key));
    }
}

#[test]
fn relink_not_found_changes_nothing() {
    let mut relink = RelinkRegistry::new();
    assert_eq!(relink.remove_member_linked(1, 1), Err(Error::NotFound));
    assert_eq!(relink.head, 0);
    assert!(relink.events.is_empty());
}

#[test]
fn relink_missing_head_is_reported() {
    // A record without any head ever assigned breaks the internal
    // invariant; the removal reports it instead of relocating.
    let mut store = KvStore::new();
    store.insert(3, 7);
    let mut relink = RelinkRegistry {
        store,
        head: 0,
        events: Vec::new(),
    };
    assert_eq!(relink.remove_member_linked(1, 3), Err(Error::PreconditionFailed));
    assert_eq!(relink.store.get(3), 7);
    assert!(relink.events.is_empty());
}

#[test]
fn relink_relocation_leaves_old_head_slot_empty() {
    // Removing a non-head slot moves the head record down, leaves the old
    // head slot empty, and never touches the head key itself.
    let mut relink = RelinkRegistry::new();
    assert_eq!(relink.add_member(1, 10), 1);
    assert_eq!(relink.add_member(1, 20), 2);
    assert_eq!(relink.remove_member_linked(1, 1), Ok(10));
    assert_eq!(relink.store.get(1), 20);
    assert!(!relink.store.contains(2));
    assert_eq!(relink.head, 2);
}

#[test]
fn relink_add_collides_with_occupied_slot() {
    // With the head below an occupied key — the sparse key space this
    // registry tolerates — the next add computes head + 1 and overwrites
    // the record already stored there. The collision hazard is deliberate
    // behaviour, not healed.
    let mut store = KvStore::new();
    store.insert(1, 10);
    store.insert(2, 20);
    let mut relink = RelinkRegistry {
        store,
        head: 1,
        events: Vec::new(),
    };
    assert_eq!(relink.add_member(1, 30), 2);
    assert_eq!(relink.store.get(2), 30);
    assert_eq!(relink.store.get(1), 10);
    assert_eq!(relink.head, 2);
}
