//! Narrow collaborator interfaces.  Each abstraction carries one capability
//! of the host: session membership, collective membership, reward handling,
//! session timing, and vote-status updates.  The unit type implements each as
//! a no-op, usable in isolated testing.

use vstd::prelude::*;
use crate::ParaId;
use crate::SessionIndex;
use crate::SystemTokenId;
use crate::VoteAccountId;
use crate::VoteWeight;

verus! {

/// Sink for the member list of the validator collective.  The notification is
/// fire-and-forget and must not fail.
pub trait CollectiveInterface<AccountId> {
    /// Hand the collective the new member list.
    fn set_new_members(new: Vec<AccountId>);
}

impl<AccountId> CollectiveInterface<AccountId> for () {
    fn set_new_members(_new: Vec<AccountId>) {
    }
}

/// Watcher of session boundaries.
pub trait SessionAlert<BlockNumber> {
    /// Whether a new session has triggered.
    fn is_new_session(n: BlockNumber) -> bool;
}

/// Something that handles fee rewards.
pub trait RewardInterface {
    /// The fee will be aggregated on a certain account for the current
    /// session.
    fn aggregate_reward(
        session_index: SessionIndex,
        para_id: ParaId,
        system_token_id: SystemTokenId,
        amount: VoteWeight,
    );

    /// The fee will be distributed to the validators for the current session.
    fn distribute_reward(session_index: SessionIndex);
}

impl RewardInterface for () {
    fn aggregate_reward(
        _session_index: SessionIndex,
        _para_id: ParaId,
        _system_token_id: SystemTokenId,
        _amount: VoteWeight,
    ) {
    }

    fn distribute_reward(_session_index: SessionIndex) {
    }
}

/// Means for interacting with the host's session machinery.
pub trait SessionInterface<AccountId> {
    /// Disable the validator at the given index; `false` when the validator
    /// was already disabled or the index is out of bounds.
    fn disable_validator(validator_index: u32) -> bool;

    /// The validator set the session machinery currently reports.
    fn validators() -> Vec<AccountId>;

    /// Prune historical session tries up to but not including the given
    /// index.
    fn prune_historical_up_to(up_to: SessionIndex);
}

impl<AccountId> SessionInterface<AccountId> for () {
    fn disable_validator(_validator_index: u32) -> bool {
        true
    }

    fn validators() -> Vec<AccountId> {
        Vec::new()
    }

    fn prune_historical_up_to(_up_to: SessionIndex) {
    }
}

/// Entry point through which the transaction pipeline reports a collected
/// vote to the election side.
pub trait VotingInterface<T> {
    /// Record `weight` for `who` in the vote ledger.
    fn update_vote_status(who: VoteAccountId, weight: VoteWeight);
}

impl<T> VotingInterface<T> for () {
    fn update_vote_status(_who: VoteAccountId, _weight: VoteWeight) {
    }
}

} // verus!
