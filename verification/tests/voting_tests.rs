use validator_election::voting::VotingStatus;

fn ledger(entries: &[(u64, u64)]) -> VotingStatus {
    let mut v = VotingStatus::default();
    for (who, pts) in entries {
        v.add_points(who, *pts);
    }
    v
}

#[test]
fn add_points_creates_and_accumulates() {
    let mut v = VotingStatus::default();
    assert_eq!(v.counts(), 0);
    v.add_points(&1, 10);
    assert_eq!(v.counts(), 1);
    assert_eq!(v.status[0], (1, 10));
    v.add_points(&2, 5);
    v.add_points(&1, 7);
    assert_eq!(v.counts(), 2);
    assert_eq!(v.status[0], (1, 17));
    assert_eq!(v.status[1], (2, 5));
}

#[test]
fn add_points_saturates_near_max() {
    let mut v = VotingStatus::default();
    v.add_points(&9, u64::MAX - 3);
    v.add_points(&9, 2);
    assert_eq!(v.status[0], (9, u64::MAX - 1));
    let before = v.status[0].1;
    v.add_points(&9, 100);
    assert_eq!(v.status[0], (9, u64::MAX));
    assert!(v.status[0].1 >= before);
    v.add_points(&9, u64::MAX);
    assert_eq!(v.status[0], (9, u64::MAX));
}

#[test]
fn repeated_add_points_never_decreases() {
    let mut v = VotingStatus::default();
    let mut last = 0u64;
    for step in [1u64, 0, u64::MAX / 2, u64::MAX, 3] {
        v.add_points(&4, step);
        let now = v.status[0].1;
        assert!(now >= last);
        last = now;
    }
}

#[test]
fn sort_by_vote_points_is_descending() {
    let mut v = ledger(&[(1, 10), (2, 30), (3, 20)]);
    v.sort_by_vote_points();
    assert_eq!(v.status, vec![(2, 30), (3, 20), (1, 10)]);
}

#[test]
fn sort_by_vote_points_is_stable_on_ties() {
    let mut v = ledger(&[(1, 5), (2, 7), (3, 5), (4, 7), (5, 5)]);
    v.sort_by_vote_points();
    assert_eq!(v.status, vec![(2, 7), (4, 7), (1, 5), (3, 5), (5, 5)]);
}

#[test]
fn top_validators_takes_descending_with_original_order_ties() {
    // Entries [(A,10),(B,30),(C,20)], threshold 0, two slots: B then C.
    let mut v = ledger(&[(1, 10), (2, 30), (3, 20)]);
    v.sort_by_vote_points();
    let top = v.top_validators(2, 0);
    assert_eq!(top, vec![2, 3]);
}

#[test]
fn top_validators_excludes_below_threshold() {
    // Same ledger, threshold 25: only B qualifies.
    let mut v = ledger(&[(1, 10), (2, 30), (3, 20)]);
    v.sort_by_vote_points();
    let top = v.top_validators(2, 25);
    assert_eq!(top, vec![2]);
}

#[test]
fn top_validators_with_more_slots_than_entries() {
    let mut v = ledger(&[(7, 3), (8, 9)]);
    v.sort_by_vote_points();
    assert_eq!(v.top_validators(10, 0), vec![8, 7]);
    assert_eq!(v.top_validators(0, 0), Vec::<u64>::new());
}

#[test]
fn top_validators_on_empty_ledger() {
    let v = VotingStatus::default();
    assert_eq!(v.top_validators(5, 0), Vec::<u64>::new());
}

#[test]
fn duplicate_copies_without_sharing() {
    let v = ledger(&[(1, 1), (2, 2)]);
    let mut copy = v.duplicate();
    copy.sort_by_vote_points();
    assert_eq!(v.status, vec![(1, 1), (2, 2)]);
    assert_eq!(copy.status, vec![(2, 2), (1, 1)]);
}
