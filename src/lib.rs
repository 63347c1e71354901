//! Staking escrow for focus sessions.
//!
//! A participant locks a stake in an escrow account, reports a focus score
//! that can only go up, marks the session complete, and then either claims
//! the stake back together with half of a shared penalty pool, or forfeits
//! everything the escrow holds into that pool.
//!
//! The ledger itself (account storage, address derivation, locking and
//! atomic commit) lives outside this crate. The handlers here receive the
//! accounts they touch as plain values and either apply the whole operation
//! or leave every account exactly as it was.

mod accounts;
mod error;
mod instructions;
mod laws;
mod pubkey;
mod state;

pub use accounts::{
    ClaimReward, CompleteSession, DepositStake, ForfeitStake, InitializeEscrow, UpdateFocusScore,
};
pub use error::{ErrorCode, ProgramError};
pub use instructions::{
    claim_outcome, claim_reward, complete_session, deposit_outcome, deposit_stake, forfeit_outcome,
    forfeit_stake, initialize_escrow, update_focus_score,
};
pub use laws::{
    completes_session, lemma_completion_is_a_latch, lemma_focus_score_is_running_maximum,
    lemma_owner_and_stake_fixed, reports_score,
};
pub use pubkey::Pubkey;
pub use state::{bonus_of, replay, Escrow, EscrowAccount, Operation, SystemAccount};
