use validator_election::election::GenesisConfig;
use validator_election::election::Pallet;
use validator_election::types::Error;
use validator_election::types::Event;
use validator_election::types::Forcing;
use validator_election::types::Pool;

/// A pallet with a seeded allowlist and (optionally) a seeded vote ledger.
fn pallet(
    seed_pool: &[u64],
    total: u32,
    seed_trust: u32,
    pool_status: Pool,
    votes: &[(u64, u64)],
    sessions_per_era: u32,
) -> Pallet {
    let config = GenesisConfig {
        seed_trust_validators: seed_pool.to_vec(),
        total_number_of_validators: total,
        number_of_seed_trust_validators: seed_trust,
        force_era: Forcing::NotForcing,
        pool_status,
        is_pot_enable_at_genesis: !votes.is_empty(),
        vote_status_at_genesis: votes.to_vec(),
    };
    config.build(sessions_per_era)
}

#[test]
fn genesis_build_sets_initial_state() {
    let p = pallet(&[1, 2, 3], 4, 2, Pool::All, &[(10, 5)], 6);
    assert_eq!(p.current_era, None);
    assert_eq!(p.seed_trust_validator_pool, vec![1, 2, 3]);
    assert_eq!(p.total_number_of_validators, 4);
    assert_eq!(p.number_of_seed_trust_validators, 2);
    assert_eq!(p.sessions_per_era, 6);
    assert_eq!(p.pot_validator_pool.status, vec![(10, 5)]);
    assert!(p.events.is_empty());
    assert!(p.start_session_index_per_era.is_empty());
}

#[test]
fn set_number_of_validators_rejects_seed_trust_above_total() {
    // seedTrust 10 > total 5 is rejected and the prior counts survive.
    let mut p = pallet(&[1, 2], 3, 2, Pool::SeedTrust, &[], 5);
    let r = p.set_number_of_validators(5, 10, 0);
    assert_eq!(r, Err(Error::SeedTrustExceedMaxValidators));
    assert_eq!(p.total_number_of_validators, 3);
    assert_eq!(p.number_of_seed_trust_validators, 2);
    assert!(p.events.is_empty());
}

#[test]
fn set_number_of_validators_rejects_shrinking_below_live_set() {
    let mut p = pallet(&[1, 2], 3, 2, Pool::SeedTrust, &[], 5);
    let r = p.set_number_of_validators(2, 1, 3);
    assert_eq!(r, Err(Error::LessThanCurrentValidatorsNum));
    assert_eq!(p.total_number_of_validators, 3);
    assert_eq!(p.number_of_seed_trust_validators, 2);
}

#[test]
fn set_number_of_validators_emits_only_changed_fields() {
    let mut p = pallet(&[1, 2], 3, 2, Pool::SeedTrust, &[], 5);
    let r = p.set_number_of_validators(4, 2, 0);
    assert_eq!(r, Ok(()));
    assert_eq!(p.total_number_of_validators, 4);
    assert_eq!(p.number_of_seed_trust_validators, 2);
    assert_eq!(p.events, vec![Event::TotalValidatorsNumChanged { prev: 3, new: 4 }]);

    let r = p.set_number_of_validators(4, 3, 0);
    assert_eq!(r, Ok(()));
    assert_eq!(
        p.events,
        vec![
            Event::TotalValidatorsNumChanged { prev: 3, new: 4 },
            Event::SeedTrustNumChanged { prev: 2, new: 3 },
        ]
    );
}

#[test]
fn privileged_setters_record_their_changes() {
    let mut p = pallet(&[], 0, 0, Pool::SeedTrust, &[], 5);
    p.add_seed_trust_validator(42);
    p.add_seed_trust_validator(42);
    assert_eq!(p.seed_trust_validator_pool, vec![42, 42]);
    p.set_min_vote_weight_threshold(9);
    assert_eq!(p.min_vote_points_threshold, 9);
    p.set_pool_status(Pool::All);
    assert_eq!(p.pool_status, Pool::All);
    p.set_force_era(Forcing::ForceNone);
    assert_eq!(p.force_era, Forcing::ForceNone);
    assert_eq!(
        p.events,
        vec![
            Event::SeedTrustAdded { who: 42 },
            Event::SeedTrustAdded { who: 42 },
            Event::MinVotePointsChanged { prev: 0, new: 9 },
            Event::PoolStatusSet { status: Pool::All },
            Event::ForceEra { mode: Forcing::ForceNone },
        ]
    );
}

#[test]
fn elect_validators_takes_seed_trust_prefix_in_pool_order() {
    let mut p = pallet(&[5, 1, 9], 2, 2, Pool::SeedTrust, &[], 5);
    let current: Vec<u64> = Vec::new();
    let elected = p.elect_validators(0, &current);
    assert_eq!(elected, vec![5, 1]);
    assert_eq!(p.seed_trust_validators, vec![5, 1]);
    assert_eq!(
        p.events,
        vec![
            Event::SeedTrustValidatorsElected { validators: vec![5, 1] },
            Event::ValidatorsElected { validators: vec![5, 1], pot_enabled: false },
        ]
    );
}

#[test]
fn elect_validators_combines_seed_trust_and_pot() {
    let mut p = pallet(&[1, 2, 3], 4, 2, Pool::All, &[(10, 10), (11, 30), (12, 20)], 5);
    let current: Vec<u64> = Vec::new();
    let elected = p.elect_validators(0, &current);
    assert_eq!(elected, vec![1, 2, 11, 12]);
    assert_eq!(p.seed_trust_validators, vec![1, 2]);
    assert_eq!(p.pot_validators, vec![11, 12]);
    // The stored ledger keeps its insertion order: elections sort a copy.
    assert_eq!(p.pot_validator_pool.status, vec![(10, 10), (11, 30), (12, 20)]);
    assert_eq!(
        p.events,
        vec![
            Event::SeedTrustValidatorsElected { validators: vec![1, 2] },
            Event::PotValidatorsElected { validators: vec![11, 12] },
            Event::ValidatorsElected { validators: vec![1, 2, 11, 12], pot_enabled: true },
        ]
    );
}

#[test]
fn elect_validators_honours_min_points_threshold() {
    let mut p = pallet(&[1], 3, 1, Pool::All, &[(10, 10), (11, 30), (12, 20)], 5);
    p.set_min_vote_weight_threshold(25);
    let current: Vec<u64> = Vec::new();
    let elected = p.elect_validators(0, &current);
    assert_eq!(elected, vec![1, 11]);
    assert_eq!(p.pot_validators, vec![11]);
}

#[test]
fn elect_validators_with_empty_pot_pool_elects_seed_trust_only() {
    let mut p = pallet(&[1, 2], 4, 2, Pool::All, &[], 5);
    let current: Vec<u64> = Vec::new();
    let elected = p.elect_validators(0, &current);
    assert_eq!(elected, vec![1, 2]);
    assert!(p.pot_validators.is_empty());
    assert_eq!(
        p.events,
        vec![
            Event::SeedTrustValidatorsElected { validators: vec![1, 2] },
            Event::EmptyPotValidatorPool,
            Event::ValidatorsElected { validators: vec![1, 2], pot_enabled: true },
        ]
    );
}

#[test]
fn elect_validators_seed_trust_only_pool_mode_skips_pot() {
    let mut p = pallet(&[1, 2], 4, 2, Pool::SeedTrust, &[(10, 10)], 5);
    let current: Vec<u64> = Vec::new();
    let elected = p.elect_validators(0, &current);
    assert_eq!(elected, vec![1, 2]);
    assert!(p.pot_validators.is_empty());
}

#[test]
fn rerunning_election_with_unchanged_membership_is_suppressed() {
    let mut p = pallet(&[1, 2], 2, 2, Pool::SeedTrust, &[], 5);
    let current: Vec<u64> = Vec::new();
    let elected = p.elect_validators(0, &current);
    assert_eq!(elected, vec![1, 2]);
    let elected_events = p.events.len();

    // Re-run with the session collaborator already reporting the same set:
    // "unchanged" is recorded twice (seed trust phase and outcome), and no
    // further ValidatorsElected notification is appended, so the collective
    // sink is not handed the same list again.
    let second = p.elect_validators(1, &elected);
    assert_eq!(second, vec![1, 2]);
    let appended = &p.events[elected_events..];
    assert_eq!(appended, &[Event::ValidatorsNotChanged, Event::ValidatorsNotChanged]);
    assert!(!appended
        .iter()
        .any(|e| matches!(e, Event::ValidatorsElected { .. })));
}

#[test]
fn first_session_boundary_bootstraps_era_zero() {
    let mut p = pallet(&[1, 2], 2, 2, Pool::SeedTrust, &[], 5);
    let current: Vec<u64> = Vec::new();
    let r = p.handle_new_session(7, true, &current);
    assert_eq!(r, Some(vec![1, 2]));
    assert_eq!(p.current_era, Some(0));
    assert_eq!(p.start_session_index_per_era, vec![7]);
    assert_eq!(p.events[0], Event::NewEraTriggered { era_index: 0 });
}

#[test]
fn force_none_never_triggers() {
    let mut p = pallet(&[1, 2], 2, 2, Pool::SeedTrust, &[], 1);
    let current: Vec<u64> = Vec::new();
    p.handle_new_session(0, true, &current);
    p.set_force_era(Forcing::ForceNone);
    let events_before = p.events.len();
    for s in 1..20u32 {
        let r = p.handle_new_session(s, false, &current);
        assert_eq!(r, None);
    }
    assert_eq!(p.current_era, Some(0));
    assert_eq!(p.start_session_index_per_era, vec![0]);
    assert_eq!(p.events.len(), events_before);
}

#[test]
fn force_always_triggers_every_boundary() {
    let mut p = pallet(&[1, 2], 2, 2, Pool::SeedTrust, &[], 100);
    let current: Vec<u64> = Vec::new();
    p.handle_new_session(0, true, &current);
    p.set_force_era(Forcing::ForceAlways);
    for s in 1..5u32 {
        let r = p.handle_new_session(s, false, &current);
        assert!(r.is_some());
        assert_eq!(p.current_era, Some(s));
    }
    assert_eq!(p.start_session_index_per_era, vec![0, 1, 2, 3, 4]);
    assert_eq!(p.force_era, Forcing::ForceAlways);
}

#[test]
fn not_forcing_triggers_exactly_at_sessions_per_era() {
    let mut p = pallet(&[1, 2], 2, 2, Pool::SeedTrust, &[], 3);
    let current: Vec<u64> = Vec::new();
    p.handle_new_session(10, true, &current);
    assert_eq!(p.current_era, Some(0));
    // Elapsed 1 and 2: below the three sessions per era.
    assert_eq!(p.handle_new_session(11, false, &current), None);
    assert_eq!(p.handle_new_session(12, false, &current), None);
    // Elapsed 3: the deadline is reached.
    let r = p.handle_new_session(13, false, &current);
    assert!(r.is_some());
    assert_eq!(p.current_era, Some(1));
    assert_eq!(p.start_session_index_per_era, vec![10, 13]);
}

#[test]
fn force_new_is_a_one_shot_trigger() {
    let mut p = pallet(&[1, 2], 2, 2, Pool::SeedTrust, &[], 100);
    let current: Vec<u64> = Vec::new();
    p.handle_new_session(0, true, &current);
    p.set_force_era(Forcing::ForceNew);
    let r = p.handle_new_session(1, false, &current);
    assert!(r.is_some());
    assert_eq!(p.current_era, Some(1));
    // The force was consumed and recorded.
    assert_eq!(p.force_era, Forcing::NotForcing);
    assert_eq!(p.events.last(), Some(&Event::ForceEra { mode: Forcing::NotForcing }));
    // The next boundary is governed by NotForcing again.
    assert_eq!(p.handle_new_session(2, false, &current), None);
}

#[test]
fn eras_and_start_sessions_grow_monotonically() {
    let mut p = pallet(&[1, 2], 2, 2, Pool::SeedTrust, &[], 2);
    let current: Vec<u64> = Vec::new();
    let mut last_era: Option<u32> = None;
    for s in 0..12u32 {
        p.handle_new_session(s, s == 0, &current);
        assert!(p.current_era >= last_era);
        last_era = p.current_era;
        let starts = &p.start_session_index_per_era;
        for w in starts.windows(2) {
            assert!(w[0] < w[1]);
        }
    }
    assert_eq!(p.current_era, Some(5));
}

#[test]
fn update_vote_status_feeds_the_pot_ledger() {
    let mut p = pallet(&[1], 2, 1, Pool::All, &[], 5);
    p.update_vote_status(30, 12);
    p.update_vote_status(31, 4);
    p.update_vote_status(30, 5);
    assert_eq!(p.pot_validator_pool.status, vec![(30, 17), (31, 4)]);
    // No notification accompanies a vote status update.
    assert!(p.events.is_empty());
}

#[test]
fn new_session_wrappers_delegate_to_the_boundary_handler() {
    let mut p = pallet(&[1, 2], 2, 2, Pool::SeedTrust, &[], 1);
    let current: Vec<u64> = Vec::new();
    let r = p.new_session_genesis(0, &current);
    assert_eq!(r, Some(vec![1, 2]));
    let r = p.new_session(1, &vec![1, 2]);
    assert!(r.is_some());
    assert_eq!(p.current_era, Some(1));
    Pallet::start_session(2);
    Pallet::end_session::<()>(2);
}
