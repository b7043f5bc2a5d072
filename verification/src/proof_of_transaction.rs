//! Per-transaction vote collection: a pre-dispatch/post-dispatch pair that
//! attributes a transaction's actual execution cost to a chosen candidate's
//! running weight tally.
//!
//! The tally here ([`Pallet::vote_info`]) is deliberately separate from the
//! election ledger in [`crate::voting`]: the two weight stores are never
//! reconciled, and merging them would silently change behaviour.

use vstd::prelude::*;
use crate::AccountId;
use crate::VoteWeight;
use crate::voting::VoteEntry;
use crate::voting::find_key;
use crate::voting::sat_add;

verus! {

/// A vote carried by a transaction: a candidate and a weight.
pub struct Vote<AccountIdT> {
    /// The candidate the vote is for.
    pub candidate: AccountIdT,
    /// The weight of the vote.
    pub weight: VoteWeight,
}

/// The capture a transaction's pre-dispatch phase hands to post-dispatch:
/// the selected candidate, when one was selected.
pub type Pre = (Option<AccountId>,);

/// The vote-collection state: one accumulated dispatch weight per account,
/// and the notifications recorded so far.
pub struct Pallet {
    /// Accumulated dispatch weight per account, one entry per account.
    pub vote_info: Vec<VoteEntry>,
    /// Notifications recorded so far, in order of emission.
    pub events: Vec<Event>,
}

/// Notifications recorded by vote collection.
#[derive(Copy, Clone, PartialEq, Eq, Structural, Debug)]
pub enum Event {
    /// A vote has been collected: the candidate and its new cumulative
    /// weight.
    VoteCollected { candidate: AccountId, weight: VoteWeight },
}

/// The candidate a post-dispatch call attributes the cost to: the one
/// captured at pre-dispatch, when the capture exists and selected one.
pub open spec fn selected_candidate(pre: Option<Pre>) -> Option<AccountId> {
    match pre {
        Option::Some(p) => p.0,
        Option::None => Option::None,
    }
}

impl Pallet {
    /// An empty tally with no recorded notifications.
    pub fn new() -> (r: Pallet)
        ensures
            r.vote_info@.len() == 0,
            r.events@.len() == 0,
    {
        Pallet { vote_info: Vec::new(), events: Vec::new() }
    }

    /// Post-dispatch: when pre-dispatch captured a selected candidate, add
    /// the transaction's actual consumed execution cost `actual_weight`
    /// (supplied by the host's dispatch-cost oracle) to that candidate's
    /// tally — insert or saturating-add — and record the collection with the
    /// new cumulative weight.  Without a capture or without a candidate this
    /// is a silent no-op, not an error.
    pub fn post_dispatch(&mut self, pre: Option<Pre>, actual_weight: VoteWeight)
        ensures
            selected_candidate(pre) is Some ==> ({
                let c = selected_candidate(pre)->0;
                let info = old(self).vote_info@;
                let i = find_key(info, c);
                let new_weight = if i < info.len() {
                    sat_add(info[i].1, actual_weight)
                } else {
                    actual_weight
                };
                &&& final(self).vote_info@ == (if i < info.len() {
                    info.update(i, (c, new_weight))
                } else {
                    info.push((c, new_weight))
                })
                &&& final(self).events@ == old(self).events@.push(
                    Event::VoteCollected { candidate: c, weight: new_weight },
                )
            }),
            selected_candidate(pre) is None ==> {
                &&& final(self).vote_info@ == old(self).vote_info@
                &&& final(self).events@ == old(self).events@
            },
    {
        if let Option::Some(p) = pre {
            let maybe_candidate = p.0;
            if let Option::Some(c) = maybe_candidate {
                let mut i: usize = 0;
                while i < self.vote_info.len()
                    invariant
                        selected_candidate(pre) == Option::Some(c),
                        i <= self.vote_info@.len(),
                        self.vote_info@ == old(self).vote_info@,
                        self.events@ == old(self).events@,
                        forall|j: int| 0 <= j < i ==> self.vote_info@[j].0 != c,
                    decreases self.vote_info@.len() - i,
                {
                    if self.vote_info[i].0 == c {
                        proof {
                            crate::voting::lemma_find_key_at(
                                old(self).vote_info@,
                                c,
                                i as int,
                            );
                        }
                        let weight = self.vote_info[i].1.saturating_add(actual_weight);
                        self.vote_info.set(i, (c, weight));
                        self.events.push(Event::VoteCollected { candidate: c, weight });
                        return ;
                    }
                    i += 1;
                }
                proof {
                    crate::voting::lemma_find_key_at(
                        old(self).vote_info@,
                        c,
                        old(self).vote_info@.len() as int,
                    );
                }
                self.vote_info.push((c, actual_weight));
                self.events.push(
                    Event::VoteCollected { candidate: c, weight: actual_weight },
                );
            }
        }
    }
}

/// The per-transaction vote capture bound to every transaction carrying an
/// optional candidate selection.
pub struct CollectVote {
    candidate: Option<AccountId>,
}

impl CollectVote {
    /// The candidate this capture selects, when one was selected.
    pub closed spec fn spec_candidate(&self) -> Option<AccountId> {
        self.candidate
    }

    /// A capture with no candidate selected.
    pub fn new() -> (r: Self)
        ensures
            r.spec_candidate() is None,
    {
        CollectVote { candidate: None }
    }

    /// Extension point through which a transaction's selected candidate will
    /// be recorded; deliberately a no-op, as collection is driven by
    /// [`Pallet::post_dispatch`].
    pub fn collect_vote_for(_candidate: Option<AccountId>) {
    }

    /// Hook for adjusting a recorded weight by the age of the vote, measured
    /// from a genesis block reference to the current block.  No decay curve
    /// is defined, so the hook deliberately leaves the weight unchanged.
    pub fn adjust_weight(weight: &mut VoteWeight, _genesis_block: u32, _current_block: u32)
        ensures
            *final(weight) == *old(weight),
    {
    }

    /// Pre-dispatch: capture the selected candidate before execution.  The
    /// choice is immutable for the lifetime of the transaction.
    pub fn pre_dispatch(self) -> (r: Pre)
        ensures
            r.0 == self.spec_candidate(),
    {
        (self.candidate,)
    }
}

} // verus!
