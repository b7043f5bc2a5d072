//! Validator-set election and era rotation for a proof-of-stake style
//! consensus layer.
//!
//! The crate decides, at session boundaries, which accounts are entitled to
//! validate blocks for the next era.  A fixed allowlist ("seed trust"
//! validators) is combined with an open pool of candidates ranked by
//! accumulated voting weight ("proof of transaction" validators).  A separate
//! per-transaction collector converts a transaction's execution cost into
//! voting weight for a chosen candidate.
//!
//! All chain state owned by the module is held in explicit state structs
//! ([`election::Pallet`] and [`proof_of_transaction::Pallet`]); the host's
//! storage, event sinks and session timing are external collaborators reached
//! through the narrow traits in [`interfaces`].

use vstd::prelude::*;

pub mod election;
pub mod interfaces;
pub mod proof_of_transaction;
pub mod types;
pub mod voting;

verus! {

/// Simple index type with which we can count sessions.
pub type SessionIndex = u32;

/// Counter for the number of eras that have passed.
pub type EraIndex = u32;

/// Identifier of an account, opaque to the election logic.
pub type AccountId = u64;

/// Identifier of an account in the vote ledger.
pub type VoteAccountId = u64;

/// Weight accumulated for a candidate, one scalar per vote.
pub type VoteWeight = u64;

/// Identifier of a parachain, used only by the reward collaborator.
pub type ParaId = u32;

/// Identifier of a system token, used only by the reward collaborator.
pub type SystemTokenId = u64;

} // verus!
