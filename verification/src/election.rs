//! The era/session state machine and the two-phase validator election.
//!
//! All chain state the module owns lives in [`Pallet`]; every operation is a
//! step on that struct.  Notifications are appended to [`Pallet::events`] and
//! the host forwards them (the `ValidatorsElected` event is the point at
//! which the host hands the new member list to the collective sink).

use vstd::prelude::*;
use crate::AccountId;
use crate::EraIndex;
use crate::SessionIndex;
use crate::VoteAccountId;
use crate::VoteWeight;
use crate::types::Error;
use crate::types::Event;
use crate::types::Forcing;
use crate::types::Pool;
use crate::voting::VoteEntry;
use crate::voting::VotingStatus;
use crate::interfaces::RewardInterface;
use crate::interfaces::SessionAlert;
use crate::voting::add_points_spec;
use crate::voting::stable_sort_desc;
use crate::voting::top_of;

verus! {

/// The first `n` entries of the seed trust pool, in pool order.
pub open spec fn seed_slice(pool: Seq<AccountId>, n: u32) -> Seq<AccountId> {
    pool.take(vstd::math::min(n as int, pool.len() as int))
}

/// The proof-of-transaction slice: the ledger sorted by points descending
/// (stable), cut to the first `n` entries whose points reach `threshold`.
pub open spec fn pot_slice(status: Seq<VoteEntry>, n: u32, threshold: u64) -> Seq<AccountId> {
    top_of(stable_sort_desc(status), n, threshold)
}

/// The event recorded by the seed trust phase: `ValidatorsNotChanged` when
/// the slice equals the stored one, else the elected slice.
pub open spec fn seed_phase_event(e: Event, prev: Seq<AccountId>, new: Seq<AccountId>) -> bool {
    if prev == new {
        e is ValidatorsNotChanged
    } else {
        e matches Event::SeedTrustValidatorsElected { validators } && validators@ == new
    }
}

/// The event recorded by the proof-of-transaction phase.
pub open spec fn pot_phase_event(e: Event, prev: Seq<AccountId>, new: Seq<AccountId>) -> bool {
    if new.len() == 0 {
        e is EmptyPotValidatorPool
    } else if prev == new {
        e is ValidatorsNotChanged
    } else {
        e matches Event::PotValidatorsElected { validators } && validators@ == new
    }
}

/// The final event of an election: `ValidatorsNotChanged` when the candidate
/// set equals the currently reported one, else the elected set.
pub open spec fn outcome_event(
    e: Event,
    current: Seq<AccountId>,
    elected: Seq<AccountId>,
    pot_enabled: bool,
) -> bool {
    if current == elected {
        e is ValidatorsNotChanged
    } else {
        e matches Event::ValidatorsElected { validators, pot_enabled: pe } && validators@
            == elected && pe == pot_enabled
    }
}

/// The election and era-rotation state owned by the module.
pub struct Pallet {
    /// The current era index, `None` until the first era is planned.
    pub current_era: Option<EraIndex>,
    /// The vote ledger backing proof-of-transaction election.
    pub pot_validator_pool: VotingStatus,
    /// The full seed trust allowlist, in insertion order.
    pub seed_trust_validator_pool: Vec<AccountId>,
    /// The seed trust validators elected for the current era.
    pub seed_trust_validators: Vec<AccountId>,
    /// The proof-of-transaction validators elected for the current era.
    pub pot_validators: Vec<AccountId>,
    /// How many seed trust validators can be elected.
    pub number_of_seed_trust_validators: u32,
    /// Total number of validators that can be elected.
    pub total_number_of_validators: u32,
    /// A candidate below this threshold is never elected by PoT.
    pub min_vote_points_threshold: u64,
    /// The session at which each era began, indexed by era.
    pub start_session_index_per_era: Vec<SessionIndex>,
    /// Mode of era forcing.
    pub force_era: Forcing,
    /// Mode of the validator pool.
    pub pool_status: Pool,
    /// Number of sessions per era (configuration constant).
    pub sessions_per_era: SessionIndex,
    /// Notifications recorded so far, in order of emission.
    pub events: Vec<Event>,
}

/// The era bookkeeping of `a` and `b` agree.
pub open spec fn same_era_state(a: &Pallet, b: &Pallet) -> bool {
    &&& a.current_era == b.current_era
    &&& a.start_session_index_per_era@ == b.start_session_index_per_era@
}

/// The candidate pools of `a` and `b` agree.
pub open spec fn same_pools(a: &Pallet, b: &Pallet) -> bool {
    &&& a.pot_validator_pool.status@ == b.pot_validator_pool.status@
    &&& a.seed_trust_validator_pool@ == b.seed_trust_validator_pool@
}

/// The elected validator sets of `a` and `b` agree.
pub open spec fn same_elected(a: &Pallet, b: &Pallet) -> bool {
    &&& a.seed_trust_validators@ == b.seed_trust_validators@
    &&& a.pot_validators@ == b.pot_validators@
}

/// The numeric configuration of `a` and `b` agrees.
pub open spec fn same_counts(a: &Pallet, b: &Pallet) -> bool {
    &&& a.number_of_seed_trust_validators == b.number_of_seed_trust_validators
    &&& a.total_number_of_validators == b.total_number_of_validators
    &&& a.min_vote_points_threshold == b.min_vote_points_threshold
    &&& a.sessions_per_era == b.sessions_per_era
}

/// The forcing and pool modes of `a` and `b` agree.
pub open spec fn same_modes(a: &Pallet, b: &Pallet) -> bool {
    &&& a.force_era == b.force_era
    &&& a.pool_status == b.pool_status
}

impl Pallet {
    /// Well-formedness: the seed trust count never exceeds the total count,
    /// and one start session is recorded per planned era, strictly
    /// increasing.
    pub open spec fn wf(&self) -> bool {
        &&& self.number_of_seed_trust_validators <= self.total_number_of_validators
        &&& match self.current_era {
            Option::Some(e) => self.start_session_index_per_era@.len() == e + 1,
            Option::None => self.start_session_index_per_era@.len() == 0,
        }
        &&& forall|i: int, j: int|
            0 <= i < j < self.start_session_index_per_era@.len()
                ==> self.start_session_index_per_era@[i] < self.start_session_index_per_era@[j]
    }

    /// How many validators the proof-of-transaction phase may contribute.
    pub open spec fn spec_num_pot(&self) -> u32
        recommends
            self.wf(),
    {
        (self.total_number_of_validators - self.number_of_seed_trust_validators) as u32
    }

    /// Whether the proof-of-transaction phase participates at all.
    pub open spec fn spec_pot_enabled(&self) -> bool
        recommends
            self.wf(),
    {
        self.spec_num_pot() != 0 && self.pool_status is All
    }

    /// The seed trust slice the next election will produce.
    pub open spec fn spec_seed_trust_elected(&self) -> Seq<AccountId> {
        seed_slice(self.seed_trust_validator_pool@, self.number_of_seed_trust_validators)
    }

    /// The proof-of-transaction slice the next election will produce.
    pub open spec fn spec_pot_elected(&self) -> Seq<AccountId>
        recommends
            self.wf(),
    {
        pot_slice(
            self.pot_validator_pool.status@,
            self.spec_num_pot(),
            self.min_vote_points_threshold,
        )
    }

    /// The full validator set the next election will produce: the seed trust
    /// slice first, then (when enabled) the proof-of-transaction slice.
    pub open spec fn spec_new_validators(&self) -> Seq<AccountId>
        recommends
            self.wf(),
    {
        if self.spec_pot_enabled() {
            self.spec_seed_trust_elected() + self.spec_pot_elected()
        } else {
            self.spec_seed_trust_elected()
        }
    }

    /// Number of sessions the current era has run at `session_index`,
    /// saturating at zero: a session index below the era's start session is a
    /// logic error of the host and must not underflow.
    pub open spec fn spec_era_length(&self, session_index: SessionIndex) -> u32
        recommends
            self.wf(),
            self.current_era is Some,
    {
        let start = self.start_session_index_per_era@.last();
        if session_index >= start {
            (session_index - start) as u32
        } else {
            0
        }
    }

    /// Whether a boundary at `session_index` triggers a new era: always
    /// before the first era; then as the forcing mode directs.
    pub open spec fn spec_triggers(&self, session_index: SessionIndex) -> bool
        recommends
            self.wf(),
    {
        match self.current_era {
            Option::None => true,
            Option::Some(_) => match self.force_era {
                Forcing::ForceNew => true,
                Forcing::ForceAlways => true,
                Forcing::NotForcing => self.spec_era_length(session_index)
                    >= self.sessions_per_era,
                Forcing::ForceNone => false,
            },
        }
    }

    /// The era a trigger plans next: zero at genesis, else the successor.
    pub open spec fn spec_next_era(&self) -> EraIndex
        recommends
            self.current_era is Some ==> self.current_era->0 < u32::MAX,
    {
        match self.current_era {
            Option::Some(e) => (e + 1) as u32,
            Option::None => 0,
        }
    }

    /// Helper to set a new `ForceEra` mode.
    pub fn set_force_era(&mut self, mode: Forcing)
        ensures
            final(self).force_era == mode,
            final(self).events@ == old(self).events@.push(Event::ForceEra { mode }),
            same_era_state(final(self), old(self)),
            same_pools(final(self), old(self)),
            same_elected(final(self), old(self)),
            same_counts(final(self), old(self)),
            final(self).pool_status == old(self).pool_status,
    {
        self.force_era = mode;
        self.events.push(Event::ForceEra { mode });
    }

    /// Privileged overwrite of the pool mode.
    pub fn set_pool_status(&mut self, status: Pool)
        ensures
            final(self).pool_status == status,
            final(self).events@ == old(self).events@.push(Event::PoolStatusSet { status }),
            same_era_state(final(self), old(self)),
            same_pools(final(self), old(self)),
            same_elected(final(self), old(self)),
            same_counts(final(self), old(self)),
            final(self).force_era == old(self).force_era,
    {
        self.pool_status = status;
        self.events.push(Event::PoolStatusSet { status });
    }

    /// Privileged overwrite of the minimum vote points threshold.
    pub fn set_min_vote_weight_threshold(&mut self, new: u64)
        ensures
            final(self).min_vote_points_threshold == new,
            final(self).events@ == old(self).events@.push(
                Event::MinVotePointsChanged { prev: old(self).min_vote_points_threshold, new },
            ),
            same_era_state(final(self), old(self)),
            same_pools(final(self), old(self)),
            same_elected(final(self), old(self)),
            same_modes(final(self), old(self)),
            final(self).number_of_seed_trust_validators == old(
                self,
            ).number_of_seed_trust_validators,
            final(self).total_number_of_validators == old(self).total_number_of_validators,
            final(self).sessions_per_era == old(self).sessions_per_era,
    {
        let prev = self.min_vote_points_threshold;
        self.min_vote_points_threshold = new;
        self.events.push(Event::MinVotePointsChanged { prev, new });
    }

    /// Privileged append to the seed trust pool.  Duplicate entries are the
    /// caller's responsibility: no dedup check is made.
    pub fn add_seed_trust_validator(&mut self, who: AccountId)
        ensures
            final(self).seed_trust_validator_pool@ == old(self).seed_trust_validator_pool@.push(
                who,
            ),
            final(self).events@ == old(self).events@.push(Event::SeedTrustAdded { who }),
            final(self).pot_validator_pool.status@ == old(self).pot_validator_pool.status@,
            same_era_state(final(self), old(self)),
            same_elected(final(self), old(self)),
            same_counts(final(self), old(self)),
            same_modes(final(self), old(self)),
    {
        self.seed_trust_validator_pool.push(who);
        self.events.push(Event::SeedTrustAdded { who });
    }

    /// Overwrite the validator counts, recording a change notification for
    /// each count that actually changed.  The configuration invariant is a
    /// precondition: this is the commit half of validate-then-commit.
    pub fn do_set_number_of_validator(&mut self, new_total: u32, new_seed_trust: u32)
        requires
            new_seed_trust <= new_total,
        ensures
            final(self).number_of_seed_trust_validators == new_seed_trust,
            final(self).total_number_of_validators == new_total,
            final(self).events@ == ({
                let prev_seed = old(self).number_of_seed_trust_validators;
                let prev_total = old(self).total_number_of_validators;
                let after_seed = if new_seed_trust != prev_seed {
                    old(self).events@.push(
                        Event::SeedTrustNumChanged { prev: prev_seed, new: new_seed_trust },
                    )
                } else {
                    old(self).events@
                };
                if new_total != prev_total {
                    after_seed.push(
                        Event::TotalValidatorsNumChanged { prev: prev_total, new: new_total },
                    )
                } else {
                    after_seed
                }
            }),
            same_era_state(final(self), old(self)),
            same_pools(final(self), old(self)),
            same_elected(final(self), old(self)),
            same_modes(final(self), old(self)),
            final(self).min_vote_points_threshold == old(self).min_vote_points_threshold,
            final(self).sessions_per_era == old(self).sessions_per_era,
    {
        let prev_seed = self.number_of_seed_trust_validators;
        let prev_total = self.total_number_of_validators;
        if new_seed_trust != prev_seed {
            self.number_of_seed_trust_validators = new_seed_trust;
            self.events.push(Event::SeedTrustNumChanged { prev: prev_seed, new: new_seed_trust });
        }
        if new_total != prev_total {
            self.total_number_of_validators = new_total;
            self.events.push(
                Event::TotalValidatorsNumChanged { prev: prev_total, new: new_total },
            );
        }
    }

    /// Validate and commit new validator counts.  Rejects a seed trust count
    /// above the total, and a total below the number of validators the
    /// session collaborator currently reports; a rejection changes nothing.
    pub fn set_number_of_validators(
        &mut self,
        new_total: u32,
        new_seed_trust_num: u32,
        current_validators_num: u32,
    ) -> (r: Result<(), Error>)
        ensures
            new_seed_trust_num > new_total ==> r == Err::<(), Error>(
                Error::SeedTrustExceedMaxValidators,
            ) && *final(self) == *old(self),
            new_seed_trust_num <= new_total && new_total < current_validators_num ==> r
                == Err::<(), Error>(Error::LessThanCurrentValidatorsNum) && *final(self) == *old(
                self,
            ),
            new_seed_trust_num <= new_total && new_total >= current_validators_num ==> {
                &&& r == Ok::<(), Error>(())
                &&& final(self).number_of_seed_trust_validators == new_seed_trust_num
                &&& final(self).total_number_of_validators == new_total
                &&& final(self).events@ == ({
                    let prev_seed = old(self).number_of_seed_trust_validators;
                    let prev_total = old(self).total_number_of_validators;
                    let after_seed = if new_seed_trust_num != prev_seed {
                        old(self).events@.push(
                            Event::SeedTrustNumChanged {
                                prev: prev_seed,
                                new: new_seed_trust_num,
                            },
                        )
                    } else {
                        old(self).events@
                    };
                    if new_total != prev_total {
                        after_seed.push(
                            Event::TotalValidatorsNumChanged { prev: prev_total, new: new_total },
                        )
                    } else {
                        after_seed
                    }
                })
                &&& same_era_state(final(self), old(self))
                &&& same_pools(final(self), old(self))
                &&& same_elected(final(self), old(self))
                &&& same_modes(final(self), old(self))
                &&& final(self).min_vote_points_threshold == old(self).min_vote_points_threshold
                &&& final(self).sessions_per_era == old(self).sessions_per_era
            },
    {
        if !(new_total >= new_seed_trust_num) {
            return Err(Error::SeedTrustExceedMaxValidators);
        }
        if !(new_total >= current_validators_num) {
            return Err(Error::LessThanCurrentValidatorsNum);
        }
        self.do_set_number_of_validator(new_total, new_seed_trust_num);
        Ok(())
    }

    /// Record `weight` for `who` in the vote ledger backing PoT election.
    pub fn update_vote_status(&mut self, who: VoteAccountId, weight: VoteWeight)
        ensures
            final(self).pot_validator_pool.status@ == add_points_spec(
                old(self).pot_validator_pool.status@,
                who,
                weight,
            ),
            final(self).seed_trust_validator_pool@ == old(self).seed_trust_validator_pool@,
            final(self).events@ == old(self).events@,
            same_era_state(final(self), old(self)),
            same_elected(final(self), old(self)),
            same_counts(final(self), old(self)),
            same_modes(final(self), old(self)),
    {
        self.pot_validator_pool.add_points(&who, weight);
    }

    /// Seed trust phase: take the first `num_seed_trust` entries of the pool,
    /// in pool order.  When the slice equals the stored one, record
    /// "unchanged" and keep it; otherwise store it and record the election.
    fn do_elect_seed_trust_validators(&mut self, num_seed_trust: u32) -> (r: Vec<AccountId>)
        ensures
            r@ == seed_slice(old(self).seed_trust_validator_pool@, num_seed_trust),
            final(self).seed_trust_validators@ == r@,
            final(self).events@ == old(self).events@.push(final(self).events@.last()),
            seed_phase_event(
                final(self).events@.last(),
                old(self).seed_trust_validators@,
                r@,
            ),
            final(self).pot_validators@ == old(self).pot_validators@,
            same_era_state(final(self), old(self)),
            same_pools(final(self), old(self)),
            same_counts(final(self), old(self)),
            same_modes(final(self), old(self)),
    {
        let pool_len = self.seed_trust_validator_pool.len();
        let bound: usize = if (num_seed_trust as usize) < pool_len {
            num_seed_trust as usize
        } else {
            pool_len
        };
        let mut new: Vec<AccountId> = Vec::new();
        let mut i: usize = 0;
        while i < bound
            invariant
                i <= bound,
                bound == vstd::math::min(
                    num_seed_trust as int,
                    self.seed_trust_validator_pool@.len() as int,
                ),
                new@ == self.seed_trust_validator_pool@.take(i as int),
                self.seed_trust_validator_pool@ == old(self).seed_trust_validator_pool@,
            decreases bound - i,
        {
            new.push(self.seed_trust_validator_pool[i]);
            proof {
                assert(self.seed_trust_validator_pool@.take(i as int + 1)
                    =~= self.seed_trust_validator_pool@.take(i as int).push(
                    self.seed_trust_validator_pool@[i as int],
                ));
            }
            i += 1;
        }
        if vec_eq(&self.seed_trust_validators, &new) {
            self.events.push(Event::ValidatorsNotChanged);
            return new;
        }
        self.seed_trust_validators = clone_ids(&new);
        self.events.push(Event::SeedTrustValidatorsElected { validators: clone_ids(&new) });
        new
    }

    /// Proof-of-transaction phase: sort a copy of the ledger by points
    /// descending (stable) and take the first `num_pot` candidates whose
    /// points reach the threshold.  An empty result is recorded and elects
    /// nobody; an unchanged result is recorded and kept; otherwise the new
    /// slice is stored and recorded.
    fn do_elect_pot_validators(&mut self, _era_index: EraIndex, num_pot: u32) -> (r: Vec<
        AccountId,
    >)
        ensures
            r@ == pot_slice(
                old(self).pot_validator_pool.status@,
                num_pot,
                old(self).min_vote_points_threshold,
            ),
            final(self).pot_validators@ == (if r@.len() == 0 {
                old(self).pot_validators@
            } else {
                r@
            }),
            final(self).events@ == old(self).events@.push(final(self).events@.last()),
            pot_phase_event(final(self).events@.last(), old(self).pot_validators@, r@),
            final(self).seed_trust_validators@ == old(self).seed_trust_validators@,
            same_era_state(final(self), old(self)),
            same_pools(final(self), old(self)),
            same_counts(final(self), old(self)),
            same_modes(final(self), old(self)),
    {
        let mut voting_status = self.pot_validator_pool.duplicate();
        voting_status.sort_by_vote_points();
        let new = voting_status.top_validators(num_pot, self.min_vote_points_threshold);
        if new.len() == 0 {
            self.events.push(Event::EmptyPotValidatorPool);
            return new;
        }
        if vec_eq(&self.pot_validators, &new) {
            self.events.push(Event::ValidatorsNotChanged);
            return new;
        }
        self.pot_validators = clone_ids(&new);
        self.events.push(Event::PotValidatorsElected { validators: clone_ids(&new) });
        new
    }

    /// Elect validators for an era from the seed trust pool and, when the
    /// pool mode allows and the counts leave room, the PoT vote ledger.  The
    /// candidate set is compared against `session_validators`, the set the
    /// session collaborator currently reports: an identical set is recorded
    /// as unchanged, otherwise the election is recorded (the host then hands
    /// the new list to the collective sink).
    pub fn elect_validators(&mut self, era_index: EraIndex, session_validators: &Vec<AccountId>)
        -> (r: Vec<AccountId>)
        requires
            old(self).wf(),
        ensures
            final(self).wf(),
            r@ == old(self).spec_new_validators(),
            final(self).seed_trust_validators@ == old(self).spec_seed_trust_elected(),
            final(self).pot_validators@ == (if old(self).spec_pot_enabled() && old(
                self,
            ).spec_pot_elected().len() > 0 {
                old(self).spec_pot_elected()
            } else {
                old(self).pot_validators@
            }),
            same_era_state(final(self), old(self)),
            same_pools(final(self), old(self)),
            same_counts(final(self), old(self)),
            same_modes(final(self), old(self)),
            elect_events_post(*old(self), *final(self), session_validators@),
    {
        let num_seed_trust = self.number_of_seed_trust_validators;
        let num_pot = self.total_number_of_validators - num_seed_trust;
        let mut pot_enabled = false;
        let mut new_validators: Vec<AccountId> = self.do_elect_seed_trust_validators(
            num_seed_trust,
        );
        if num_pot != 0 && matches!(self.pool_status, Pool::All) {
            let mut pot_validators = self.do_elect_pot_validators(era_index, num_pot);
            pot_enabled = true;
            new_validators.append(&mut pot_validators);
        }
        let old_validators = clone_ids(session_validators);
        if vec_eq(&old_validators, &new_validators) {
            self.events.push(Event::ValidatorsNotChanged);
            proof {
                assert(self.events@.take(old(self).events@.len() as int) =~= old(self).events@);
                assert(elect_events_post(*old(self), *self, session_validators@));
            }
            return old_validators;
        }
        self.events.push(
            Event::ValidatorsElected { validators: clone_ids(&new_validators), pot_enabled },
        );
        proof {
            assert(self.events@.take(old(self).events@.len() as int) =~= old(self).events@);
            assert(elect_events_post(*old(self), *self, session_validators@));
        }
        new_validators
    }

    /// Plan a new era: bump the current era, record the start session for
    /// it, record the trigger, and run the election.  Always returns the new
    /// validator set.
    fn do_trigger_new_era(
        &mut self,
        session_index: SessionIndex,
        _is_genesis: bool,
        session_validators: &Vec<AccountId>,
    ) -> (r: Option<Vec<AccountId>>)
        requires
            old(self).wf(),
            old(self).current_era is Some ==> old(self).current_era->0 < u32::MAX,
            old(self).current_era is Some ==> session_index > old(
                self,
            ).start_session_index_per_era@.last(),
        ensures
            final(self).wf(),
            r is Some,
            r->0@ == old(self).spec_new_validators(),
            final(self).current_era == Some(old(self).spec_next_era()),
            final(self).start_session_index_per_era@ == old(
                self,
            ).start_session_index_per_era@.push(session_index),
            final(self).seed_trust_validators@ == old(self).spec_seed_trust_elected(),
            final(self).pot_validators@ == (if old(self).spec_pot_enabled() && old(
                self,
            ).spec_pot_elected().len() > 0 {
                old(self).spec_pot_elected()
            } else {
                old(self).pot_validators@
            }),
            same_pools(final(self), old(self)),
            same_counts(final(self), old(self)),
            same_modes(final(self), old(self)),
            trigger_events_post(*old(self), *final(self), session_validators@, false),
    {
        let new_planned_era: EraIndex = match self.current_era {
            Option::Some(e) => e + 1,
            Option::None => 0,
        };
        self.current_era = Some(new_planned_era);
        self.start_session_index_per_era.push(session_index);
        proof {
            let s = self.start_session_index_per_era@;
            let olds = old(self).start_session_index_per_era@;
            assert forall|i: int, j: int| 0 <= i < j < s.len() implies s[i] < s[j] by {
                if j == s.len() - 1 && olds.len() > 0 {
                    if i < olds.len() - 1 {
                        assert(olds[i] < olds[olds.len() - 1]);
                    }
                }
            }
        }
        self.events.push(Event::NewEraTriggered { era_index: new_planned_era });
        let vals = self.elect_validators(new_planned_era, session_validators);
        proof {
            let o = old(self).events@;
            let o1 = o.push(Event::NewEraTriggered { era_index: new_planned_era });
            assert(self.events@.take(o1.len() as int) == o1);
            assert forall|i: int| 0 <= i < o.len() implies self.events@.take(o.len() as int)[i]
                == o[i] by {
                assert(self.events@.take(o1.len() as int)[i] == o1[i]);
            }
            assert(self.events@.take(o.len() as int) =~= o);
            assert(self.events@[o.len() as int] == o1[o.len() as int]);
        }
        Some(vals)
    }

    /// Observe a session boundary: decide per the forcing mode whether the
    /// era rotates, and when it does, plan the new era and elect validators.
    /// `None` signals the host to keep the previous validator set.  A
    /// one-shot `ForceNew` trigger resets the forcing mode to `NotForcing`.
    pub fn handle_new_session(
        &mut self,
        session_index: SessionIndex,
        is_genesis: bool,
        session_validators: &Vec<AccountId>,
    ) -> (r: Option<Vec<AccountId>>)
        requires
            old(self).wf(),
            old(self).current_era is Some ==> old(self).current_era->0 < u32::MAX,
            old(self).current_era is Some ==> session_index > old(
                self,
            ).start_session_index_per_era@.last(),
        ensures
            session_boundary_post(
                *old(self),
                *final(self),
                session_index,
                session_validators@,
                r,
            ),
    {
        if self.current_era.is_some() {
            let idx = self.start_session_index_per_era.len() - 1;
            let start_session_index = self.start_session_index_per_era[idx];
            let era_length = session_index.saturating_sub(start_session_index);
            let proceed = match self.force_era {
                Forcing::ForceNew => true,
                Forcing::ForceAlways => true,
                Forcing::NotForcing => era_length >= self.sessions_per_era,
                Forcing::ForceNone => false,
            };
            if !proceed {
                return None;
            }
            let maybe_new_era_validators = self.do_trigger_new_era(
                session_index,
                is_genesis,
                session_validators,
            );
            if maybe_new_era_validators.is_some() && matches!(self.force_era, Forcing::ForceNew) {
                let ghost before_reset = self.events@;
                self.set_force_era(Forcing::NotForcing);
                proof {
                    let o = old(self).events@;
                    assert(self.events@.take(o.len() as int) =~= before_reset.take(
                        o.len() as int,
                    ));
                }
            }
            maybe_new_era_validators
        } else {
            self.do_trigger_new_era(session_index, is_genesis, session_validators)
        }
    }

    /// Plan a new session, potentially planning a new era.
    pub fn new_session(
        &mut self,
        new_index: SessionIndex,
        session_validators: &Vec<AccountId>,
    ) -> (r: Option<Vec<AccountId>>)
        requires
            old(self).wf(),
            old(self).current_era is Some ==> old(self).current_era->0 < u32::MAX,
            old(self).current_era is Some ==> new_index > old(
                self,
            ).start_session_index_per_era@.last(),
        ensures
            session_boundary_post(*old(self), *final(self), new_index, session_validators@, r),
    {
        self.handle_new_session(new_index, false, session_validators)
    }

    /// Plan the genesis session, planning the first era.
    pub fn new_session_genesis(
        &mut self,
        new_index: SessionIndex,
        session_validators: &Vec<AccountId>,
    ) -> (r: Option<Vec<AccountId>>)
        requires
            old(self).wf(),
            old(self).current_era is Some ==> old(self).current_era->0 < u32::MAX,
            old(self).current_era is Some ==> new_index > old(
                self,
            ).start_session_index_per_era@.last(),
        ensures
            session_boundary_post(*old(self), *final(self), new_index, session_validators@, r),
    {
        self.handle_new_session(new_index, true, session_validators)
    }

    /// Start a session.  Starting changes no election state.
    pub fn start_session(_start_index: SessionIndex) {
    }

    /// End a session: the reward collaborator is notified unconditionally,
    /// whether or not an era also ended.
    pub fn end_session<R: RewardInterface>(end_index: SessionIndex) {
        R::distribute_reward(end_index);
    }
}

impl SessionAlert<u32> for Pallet {
    fn is_new_session(_n: u32) -> bool {
        true
    }
}

/// The notification trail one election run appends: the seed trust phase,
/// the PoT phase when enabled, and the outcome against `current`, the set
/// the session collaborator reported going in.
pub open spec fn elect_events_post(pre: Pallet, post: Pallet, current: Seq<AccountId>) -> bool {
    let o = pre.events@;
    let k: int = if pre.spec_pot_enabled() {
        3
    } else {
        2
    };
    &&& post.events@.len() == o.len() + k
    &&& post.events@.take(o.len() as int) == o
    &&& seed_phase_event(
        post.events@[o.len() as int],
        pre.seed_trust_validators@,
        pre.spec_seed_trust_elected(),
    )
    &&& (pre.spec_pot_enabled() ==> pot_phase_event(
        post.events@[o.len() as int + 1],
        pre.pot_validators@,
        pre.spec_pot_elected(),
    ))
    &&& outcome_event(
        post.events@.last(),
        current,
        pre.spec_new_validators(),
        pre.spec_pot_enabled(),
    )
}

/// The notification trail a trigger leaves: the era trigger, the seed trust
/// phase, the PoT phase when enabled, the outcome, and the one-shot forcing
/// reset when a planned era was forced by `ForceNew`.
pub open spec fn trigger_events_post(
    pre: Pallet,
    post: Pallet,
    session_validators: Seq<AccountId>,
    reset: bool,
) -> bool {
    let o = pre.events@;
    let k: int = if pre.spec_pot_enabled() {
        3
    } else {
        2
    };
    &&& post.events@.len() == o.len() + 1 + k + if reset {
        1int
    } else {
        0
    }
    &&& post.events@.take(o.len() as int) == o
    &&& post.events@[o.len() as int] == Event::NewEraTriggered { era_index: pre.spec_next_era() }
    &&& seed_phase_event(
        post.events@[o.len() as int + 1],
        pre.seed_trust_validators@,
        pre.spec_seed_trust_elected(),
    )
    &&& (pre.spec_pot_enabled() ==> pot_phase_event(
        post.events@[o.len() as int + 2],
        pre.pot_validators@,
        pre.spec_pot_elected(),
    ))
    &&& outcome_event(
        post.events@[o.len() as int + k],
        session_validators,
        pre.spec_new_validators(),
        pre.spec_pot_enabled(),
    )
    &&& (reset ==> post.events@[o.len() as int + k + 1] == Event::ForceEra {
        mode: Forcing::NotForcing,
    })
}

/// Everything `handle_new_session` promises, as one relation between the
/// state before and after a session boundary.
pub open spec fn session_boundary_post(
    pre: Pallet,
    post: Pallet,
    session_index: SessionIndex,
    session_validators: Seq<AccountId>,
    r: Option<Vec<AccountId>>,
) -> bool {
    &&& post.wf()
    &&& if !pre.spec_triggers(session_index) {
        &&& r is None
        &&& post == pre
    } else {
        &&& r is Some
        &&& r->0@ == pre.spec_new_validators()
        &&& post.current_era == Some(pre.spec_next_era())
        &&& post.start_session_index_per_era@ == pre.start_session_index_per_era@.push(
            session_index,
        )
        &&& post.seed_trust_validators@ == pre.spec_seed_trust_elected()
        &&& post.pot_validators@ == (if pre.spec_pot_enabled() && pre.spec_pot_elected().len()
            > 0 {
            pre.spec_pot_elected()
        } else {
            pre.pot_validators@
        })
        &&& same_pools(&post, &pre)
        &&& same_counts(&post, &pre)
        &&& post.pool_status == pre.pool_status
        &&& post.force_era == (if pre.current_era is Some && pre.force_era is ForceNew {
            Forcing::NotForcing
        } else {
            pre.force_era
        })
        &&& trigger_events_post(
            pre,
            post,
            session_validators,
            pre.current_era is Some && pre.force_era is ForceNew,
        )
    }
}

/// An element-for-element copy of a validator list.
fn clone_ids(v: &Vec<AccountId>) -> (r: Vec<AccountId>)
    ensures
        r@ == v@,
{
    let mut r: Vec<AccountId> = Vec::new();
    let mut i: usize = 0;
    while i < v.len()
        invariant
            i <= v@.len(),
            r@ == v@.take(i as int),
        decreases v@.len() - i,
    {
        r.push(v[i]);
        proof {
            assert(v@.take(i as int + 1) =~= v@.take(i as int).push(v@[i as int]));
        }
        i += 1;
    }
    proof {
        assert(v@.take(v@.len() as int) =~= v@);
    }
    r
}

/// Exact, order-sensitive equality of two validator lists.
fn vec_eq(a: &Vec<AccountId>, b: &Vec<AccountId>) -> (r: bool)
    ensures
        r == (a@ == b@),
{
    if a.len() != b.len() {
        return false;
    }
    let mut i: usize = 0;
    while i < a.len()
        invariant
            a@.len() == b@.len(),
            i <= a@.len(),
            forall|j: int| 0 <= j < i ==> a@[j] == b@[j],
        decreases a@.len() - i,
    {
        if a[i] != b[i] {
            return false;
        }
        i += 1;
    }
    proof {
        assert(a@ =~= b@);
    }
    true
}

/// The ledger that results from replaying `entries` through `add_points`.
pub open spec fn seeded_status(entries: Seq<VoteEntry>) -> Seq<VoteEntry>
    decreases entries.len(),
{
    if entries.len() == 0 {
        Seq::empty()
    } else {
        add_points_spec(
            seeded_status(entries.drop_last()),
            entries.last().0,
            entries.last().1,
        )
    }
}

/// Genesis-time configuration of the election state.
pub struct GenesisConfig {
    /// The initial seed trust allowlist.
    pub seed_trust_validators: Vec<AccountId>,
    /// Total number of validators that can be elected.
    pub total_number_of_validators: u32,
    /// Number of seed trust validators that can be elected.
    pub number_of_seed_trust_validators: u32,
    /// The initial forcing mode.
    pub force_era: Forcing,
    /// The initial pool mode.
    pub pool_status: Pool,
    /// Whether the vote ledger is seeded at genesis.
    pub is_pot_enable_at_genesis: bool,
    /// The entries the vote ledger is seeded with.
    pub vote_status_at_genesis: Vec<VoteEntry>,
}

impl Default for GenesisConfig {
    fn default() -> (r: Self)
        ensures
            r.seed_trust_validators@.len() == 0,
            r.total_number_of_validators == 0,
            r.number_of_seed_trust_validators == 0,
            r.force_era is NotForcing,
            r.pool_status is SeedTrust,
            !r.is_pot_enable_at_genesis,
            r.vote_status_at_genesis@.len() == 0,
    {
        GenesisConfig {
            is_pot_enable_at_genesis: false,
            seed_trust_validators: Vec::new(),
            total_number_of_validators: 0,
            number_of_seed_trust_validators: 0,
            force_era: Forcing::NotForcing,
            pool_status: Pool::SeedTrust,
            vote_status_at_genesis: Vec::new(),
        }
    }
}

impl GenesisConfig {
    /// Build the initial election state.  The configuration invariant must
    /// hold, and a pot-enabled genesis must seed at least one vote.
    pub fn build(&self, sessions_per_era: SessionIndex) -> (r: Pallet)
        requires
            self.number_of_seed_trust_validators <= self.total_number_of_validators,
            self.is_pot_enable_at_genesis ==> self.vote_status_at_genesis@.len() > 0,
        ensures
            r.wf(),
            r.current_era is None,
            r.start_session_index_per_era@.len() == 0,
            r.seed_trust_validator_pool@ == self.seed_trust_validators@,
            r.seed_trust_validators@.len() == 0,
            r.pot_validators@.len() == 0,
            r.number_of_seed_trust_validators == self.number_of_seed_trust_validators,
            r.total_number_of_validators == self.total_number_of_validators,
            r.min_vote_points_threshold == 0,
            r.force_era == self.force_era,
            r.pool_status == self.pool_status,
            r.sessions_per_era == sessions_per_era,
            r.events@.len() == 0,
            r.pot_validator_pool.status@ == if self.is_pot_enable_at_genesis {
                seeded_status(self.vote_status_at_genesis@)
            } else {
                Seq::<VoteEntry>::empty()
            },
    {
        let mut pot_validator_pool = VotingStatus::default();
        if self.is_pot_enable_at_genesis {
            let mut i: usize = 0;
            while i < self.vote_status_at_genesis.len()
                invariant
                    i <= self.vote_status_at_genesis@.len(),
                    pot_validator_pool.status@ == seeded_status(
                        self.vote_status_at_genesis@.take(i as int),
                    ),
                decreases self.vote_status_at_genesis@.len() - i,
            {
                let entry = self.vote_status_at_genesis[i];
                pot_validator_pool.add_points(&entry.0, entry.1);
                proof {
                    assert(self.vote_status_at_genesis@.take(i as int + 1).drop_last()
                        =~= self.vote_status_at_genesis@.take(i as int));
                    assert(self.vote_status_at_genesis@.take(i as int + 1).last() == entry);
                }
                i += 1;
            }
            proof {
                assert(self.vote_status_at_genesis@.take(self.vote_status_at_genesis@.len() as int)
                    =~= self.vote_status_at_genesis@);
            }
        }
        let mut seed_trust_validator_pool: Vec<AccountId> = Vec::new();
        let mut i: usize = 0;
        while i < self.seed_trust_validators.len()
            invariant
                i <= self.seed_trust_validators@.len(),
                seed_trust_validator_pool@ == self.seed_trust_validators@.take(i as int),
            decreases self.seed_trust_validators@.len() - i,
        {
            seed_trust_validator_pool.push(self.seed_trust_validators[i]);
            proof {
                assert(self.seed_trust_validators@.take(i as int + 1)
                    =~= self.seed_trust_validators@.take(i as int).push(
                    self.seed_trust_validators@[i as int],
                ));
            }
            i += 1;
        }
        proof {
            assert(self.seed_trust_validators@.take(self.seed_trust_validators@.len() as int)
                =~= self.seed_trust_validators@);
        }
        Pallet {
            current_era: None,
            pot_validator_pool,
            seed_trust_validator_pool,
            seed_trust_validators: Vec::new(),
            pot_validators: Vec::new(),
            number_of_seed_trust_validators: self.number_of_seed_trust_validators,
            total_number_of_validators: self.total_number_of_validators,
            min_vote_points_threshold: 0,
            start_session_index_per_era: Vec::new(),
            force_era: self.force_era,
            pool_status: self.pool_status,
            sessions_per_era,
            events: Vec::new(),
        }
    }
}


/// Era and session monotonicity: across any session boundary the era never
/// decreases, the recorded era start sessions stay strictly increasing, and
/// the old record is a prefix of the new one.
pub proof fn lemma_session_boundary_monotonic(
    pre: Pallet,
    post: Pallet,
    session_index: SessionIndex,
    session_validators: Seq<AccountId>,
    r: Option<Vec<AccountId>>,
)
    requires
        pre.wf(),
        pre.current_era is Some ==> pre.current_era->0 < u32::MAX,
        session_boundary_post(pre, post, session_index, session_validators, r),
    ensures
        post.wf(),
        pre.current_era is Some ==> post.current_era is Some && pre.current_era->0
            <= post.current_era->0,
        pre.start_session_index_per_era@.is_prefix_of(post.start_session_index_per_era@),
        forall|i: int, j: int|
            0 <= i < j < post.start_session_index_per_era@.len()
                ==> post.start_session_index_per_era@[i] < post.start_session_index_per_era@[j],
{
    if pre.spec_triggers(session_index) {
        assert(pre.start_session_index_per_era@ =~= post.start_session_index_per_era@.take(
            pre.start_session_index_per_era@.len() as int,
        ));
    } else {
        assert(pre.start_session_index_per_era@ =~= post.start_session_index_per_era@.take(
            pre.start_session_index_per_era@.len() as int,
        ));
    }
}

/// With `ForceNone`, a session boundary never triggers an election, however
/// many sessions have elapsed.
pub proof fn lemma_force_none_never_triggers(s: Pallet, session_index: SessionIndex)
    requires
        s.current_era is Some,
        s.force_era is ForceNone,
    ensures
        !s.spec_triggers(session_index),
{
}

/// With `ForceAlways`, every session boundary triggers an election.
pub proof fn lemma_force_always_triggers(s: Pallet, session_index: SessionIndex)
    requires
        s.force_era is ForceAlways,
    ensures
        s.spec_triggers(session_index),
{
}

/// With `NotForcing`, a session boundary triggers an election exactly when
/// the elapsed session count of the current era has reached
/// `sessions_per_era`.
pub proof fn lemma_not_forcing_triggers_iff(s: Pallet, session_index: SessionIndex)
    requires
        s.current_era is Some,
        s.force_era is NotForcing,
    ensures
        s.spec_triggers(session_index) <==> s.spec_era_length(session_index)
            >= s.sessions_per_era,
{
}

/// Seed-trust determinism: elections from identical pool and configuration
/// state produce identical seed trust slices, and identical full validator
/// sets, in identical order.
pub proof fn lemma_election_deterministic(a: Pallet, b: Pallet)
    requires
        a.seed_trust_validator_pool@ == b.seed_trust_validator_pool@,
        a.number_of_seed_trust_validators == b.number_of_seed_trust_validators,
        a.total_number_of_validators == b.total_number_of_validators,
        a.pool_status == b.pool_status,
        a.pot_validator_pool.status@ == b.pot_validator_pool.status@,
        a.min_vote_points_threshold == b.min_vote_points_threshold,
    ensures
        a.spec_seed_trust_elected() == b.spec_seed_trust_elected(),
        a.spec_new_validators() == b.spec_new_validators(),
{
}

/// Unchanged-set suppression: an election whose resulting membership equals
/// the currently reported set records `ValidatorsNotChanged` and appends no
/// `ValidatorsElected` notification, so the collective sink — driven by that
/// notification — is not handed the same list again.
pub proof fn lemma_unchanged_set_suppressed(pre: Pallet, post: Pallet, current: Seq<AccountId>)
    requires
        elect_events_post(pre, post, current),
        pre.spec_new_validators() == current,
    ensures
        post.events@.last() is ValidatorsNotChanged,
        forall|idx: int|
            pre.events@.len() <= idx < post.events@.len() ==> !((#[trigger] post.events@[idx])
                is ValidatorsElected),
{
    let o = pre.events@;
    let k: int = if pre.spec_pot_enabled() {
        3
    } else {
        2
    };
    assert forall|idx: int| o.len() <= idx < post.events@.len() implies !((post.events@[idx])
        is ValidatorsElected) by {
        if idx + 1 == post.events@.len() {
            assert(post.events@[idx] == post.events@.last());
        } else if idx == o.len() + 1 {
            assert(pre.spec_pot_enabled());
        } else {
            assert(idx == o.len());
        }
    }
}

} // verus!
