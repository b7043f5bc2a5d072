use validator_election::proof_of_transaction::CollectVote;
use validator_election::proof_of_transaction::Event;
use validator_election::proof_of_transaction::Pallet;

#[test]
fn post_dispatch_without_capture_changes_nothing() {
    let mut p = Pallet::new();
    p.post_dispatch(None, 100);
    assert!(p.vote_info.is_empty());
    assert!(p.events.is_empty());
}

#[test]
fn post_dispatch_without_candidate_is_a_silent_no_op() {
    let mut p = Pallet::new();
    p.post_dispatch(Some((Some(7),)), 10);
    let info_before = p.vote_info.clone();
    let events_before = p.events.clone();
    p.post_dispatch(Some((None,)), 100);
    assert_eq!(p.vote_info, info_before);
    assert_eq!(p.events, events_before);
}

#[test]
fn post_dispatch_inserts_then_accumulates() {
    let mut p = Pallet::new();
    p.post_dispatch(Some((Some(7),)), 10);
    assert_eq!(p.vote_info, vec![(7, 10)]);
    assert_eq!(p.events, vec![Event::VoteCollected { candidate: 7, weight: 10 }]);

    p.post_dispatch(Some((Some(8),)), 3);
    p.post_dispatch(Some((Some(7),)), 5);
    assert_eq!(p.vote_info, vec![(7, 15), (8, 3)]);
    assert_eq!(
        p.events,
        vec![
            Event::VoteCollected { candidate: 7, weight: 10 },
            Event::VoteCollected { candidate: 8, weight: 3 },
            Event::VoteCollected { candidate: 7, weight: 15 },
        ]
    );
}

#[test]
fn post_dispatch_saturates_the_tally() {
    let mut p = Pallet::new();
    p.post_dispatch(Some((Some(7),)), u64::MAX - 1);
    p.post_dispatch(Some((Some(7),)), 10);
    assert_eq!(p.vote_info, vec![(7, u64::MAX)]);
    assert_eq!(p.events.last(), Some(&Event::VoteCollected { candidate: 7, weight: u64::MAX }));
}

#[test]
fn collect_vote_capture_starts_without_candidate() {
    let capture = CollectVote::new();
    let pre = capture.pre_dispatch();
    assert_eq!(pre, (None,));
    let mut p = Pallet::new();
    p.post_dispatch(Some(pre), 50);
    assert!(p.vote_info.is_empty());
}

#[test]
fn collect_vote_hooks_are_no_ops() {
    CollectVote::collect_vote_for(Some(3));
    let mut weight = 77u64;
    CollectVote::adjust_weight(&mut weight, 0, 10);
    assert_eq!(weight, 77);
}
