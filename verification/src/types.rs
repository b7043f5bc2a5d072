//! Plain data: pool and forcing modes, events, and errors.

use vstd::prelude::*;
use crate::AccountId;
use crate::EraIndex;

verus! {

/// Compose of the validator pool.
#[derive(Copy, Clone, PartialEq, Eq, Structural, Debug)]
pub enum Pool {
    /// Seed Trust and PoT validators will be elected.
    All,
    /// Only Seed Trust validators will be elected.
    SeedTrust,
}

impl Default for Pool {
    /// The pool starts restricted to seed trust validators.
    fn default() -> (r: Self)
        ensures
            r is SeedTrust,
    {
        Pool::SeedTrust
    }
}

/// Mode of era forcing.
#[derive(Copy, Clone, PartialEq, Eq, Structural, Debug)]
pub enum Forcing {
    /// Not forcing anything - just let whatever happen.
    NotForcing,
    /// Force a new era, then reset to `NotForcing` as soon as it is done.
    ForceNew,
    /// Avoid a new era indefinitely.
    ForceNone,
    /// Force a new era at the end of all sessions indefinitely.
    ForceAlways,
}

impl Default for Forcing {
    fn default() -> (r: Self)
        ensures
            r is NotForcing,
    {
        Forcing::NotForcing
    }
}

/// Notifications recorded by the election state machine.  The host forwards
/// each appended event to its own event sink.
#[derive(PartialEq, Eq, Debug)]
pub enum Event {
    /// Points have been added for a candidate validator.
    VotePointsAdded { who: AccountId },
    /// The total number of validators has been changed.
    TotalValidatorsNumChanged { prev: u32, new: u32 },
    /// The number of seed trust validators has been changed.
    SeedTrustNumChanged { prev: u32, new: u32 },
    /// A seed trust validator has been added to the pool.
    SeedTrustAdded { who: AccountId },
    /// Validators have been elected.
    ValidatorsElected { validators: Vec<AccountId>, pot_enabled: bool },
    /// Seed trust validators have been elected.
    SeedTrustValidatorsElected { validators: Vec<AccountId> },
    /// Validators have been elected by PoT.
    PotValidatorsElected { validators: Vec<AccountId> },
    /// The minimum vote weight threshold has been set.
    MinVotePointsChanged { prev: u64, new: u64 },
    /// The new validator set is the same as the old one.
    ValidatorsNotChanged,
    /// There is no candidate validator in the PoT validator pool.
    EmptyPotValidatorPool,
    /// A new force era mode was set.
    ForceEra { mode: Forcing },
    /// A new era has been triggered.
    NewEraTriggered { era_index: EraIndex },
    /// A new pool status has been set.
    PoolStatusSet { status: Pool },
}

/// Rejections raised by the privileged configuration operations.
#[derive(Copy, Clone, PartialEq, Eq, Structural, Debug)]
pub enum Error {
    /// The total validator count must not fall below the number of validators
    /// currently recognized by the session collaborator.
    LessThanCurrentValidatorsNum,
    /// The number of seed trust validators must be less than or equal to the
    /// total number of validators.
    SeedTrustExceedMaxValidators,
    /// Some parameters for a transaction are bad.
    BadTransactionParams,
}

} // verus!
