use aura_consensus::equivocation::{Equivocation, EquivocationTracker};

fn author(n: u8) -> Vec<u8> {
    vec![n; 32]
}

fn hash(n: u8) -> Vec<u8> {
    vec![n; 32]
}

#[test]
fn second_block_for_a_slot_is_an_equivocation() {
    let mut tracker = EquivocationTracker::new(100);
    assert_eq!(tracker.observe(&author(1), 10, &hash(1), 10), None);
    assert_eq!(
        tracker.observe(&author(1), 10, &hash(2), 10),
        Some(Equivocation {
            author: author(1),
            slot: 10,
            first_hash: hash(1),
            second_hash: hash(2),
        })
    );
    assert_eq!(tracker.len(), 2);
}

#[test]
fn same_block_twice_is_no_equivocation() {
    let mut tracker = EquivocationTracker::new(100);
    assert_eq!(tracker.observe(&author(1), 10, &hash(1), 10), None);
    assert_eq!(tracker.observe(&author(1), 10, &hash(1), 10), None);
    assert_eq!(tracker.observe(&author(1), 10, &hash(1), 11), None);
    assert_eq!(tracker.len(), 1);
}

#[test]
fn other_authors_and_slots_do_not_conflict() {
    let mut tracker = EquivocationTracker::new(100);
    assert_eq!(tracker.observe(&author(1), 10, &hash(1), 10), None);
    assert_eq!(tracker.observe(&author(2), 10, &hash(2), 10), None);
    assert_eq!(tracker.observe(&author(1), 11, &hash(3), 11), None);
    assert_eq!(tracker.len(), 3);
}

#[test]
fn third_block_conflicts_with_the_first() {
    let mut tracker = EquivocationTracker::new(100);
    assert_eq!(tracker.observe(&author(1), 10, &hash(1), 10), None);
    assert!(tracker.observe(&author(1), 10, &hash(2), 10).is_some());
    let third = tracker.observe(&author(1), 10, &hash(3), 10).unwrap();
    assert_eq!(third.first_hash, hash(1));
    assert_eq!(third.second_hash, hash(3));
    let again = tracker.observe(&author(1), 10, &hash(1), 10).unwrap();
    assert_eq!(again.first_hash, hash(2));
    assert_eq!(again.second_hash, hash(1));
    assert_eq!(tracker.len(), 3);
}

#[test]
fn sightings_leave_with_the_window() {
    let mut tracker = EquivocationTracker::new(5);
    assert_eq!(tracker.retention(), 5);
    assert_eq!(tracker.observe(&author(1), 10, &hash(1), 10), None);
    assert_eq!(tracker.observe(&author(2), 12, &hash(2), 12), None);
    assert_eq!(tracker.len(), 2);
    assert_eq!(tracker.observe(&author(3), 15, &hash(3), 15), None);
    assert_eq!(tracker.len(), 3);
    assert_eq!(tracker.observe(&author(3), 16, &hash(4), 16), None);
    assert_eq!(tracker.len(), 3);
    assert_eq!(tracker.observe(&author(1), 10, &hash(9), 16), None);
    assert_eq!(tracker.len(), 3);
}

#[test]
fn forgotten_block_no_longer_conflicts() {
    let mut tracker = EquivocationTracker::new(2);
    assert_eq!(tracker.observe(&author(1), 10, &hash(1), 10), None);
    assert_eq!(tracker.observe(&author(1), 10, &hash(2), 13), None);
    assert_eq!(tracker.len(), 0);
    assert_eq!(tracker.observe(&author(1), 10, &hash(2), 12), None);
    assert!(tracker.observe(&author(1), 10, &hash(1), 12).is_some());
}

#[test]
fn window_edge_is_kept() {
    let mut tracker = EquivocationTracker::new(3);
    assert_eq!(tracker.observe(&author(1), 7, &hash(1), 10), None);
    assert_eq!(tracker.len(), 1);
    assert_eq!(tracker.observe(&author(1), 6, &hash(2), 10), None);
    assert_eq!(tracker.len(), 1);
    let mut wide = EquivocationTracker::new(u64::MAX);
    assert_eq!(wide.observe(&author(1), 0, &hash(1), u64::MAX), None);
    assert_eq!(wide.observe(&author(1), u64::MAX, &hash(2), 0), None);
    assert_eq!(wide.len(), 2);
}
