use vstd::prelude::*;

use crate::pubkey::Pubkey;
use crate::state::{Escrow, EscrowAccount, SystemAccount};

verus! {

/// The accounts of a request to open an escrow.
#[derive(Clone, Copy, Debug)]
pub struct InitializeEscrow {
    /// What the escrow address holds now: `None` while it is unoccupied.
    pub escrow: Option<Escrow>,
    /// The signer who will own the escrow.
    pub user: SystemAccount,
    /// The canonical salt the ledger found for the escrow address.
    pub bump: u8,
}

/// The accounts of a deposit into an escrow.
#[derive(Clone, Copy, Debug)]
pub struct DepositStake {
    pub escrow: EscrowAccount,
    /// The signer, who pays the deposit.
    pub user: SystemAccount,
}

/// The accounts of a focus score report.
#[derive(Clone, Copy, Debug)]
pub struct UpdateFocusScore {
    pub escrow: EscrowAccount,
    /// The signer.
    pub user: Pubkey,
}

/// The accounts of a request to mark a session complete.
#[derive(Clone, Copy, Debug)]
pub struct CompleteSession {
    pub escrow: EscrowAccount,
    /// The signer.
    pub user: Pubkey,
}

/// The accounts of a reward claim.
#[derive(Clone, Copy, Debug)]
pub struct ClaimReward {
    pub escrow: EscrowAccount,
    /// The signer, who receives the stake and the bonus.
    pub user: SystemAccount,
    /// The shared pool of forfeited stakes.
    pub penalty_pool: SystemAccount,
}

/// The accounts of a forfeiture.
#[derive(Clone, Copy, Debug)]
pub struct ForfeitStake {
    pub escrow: EscrowAccount,
    /// The shared pool of forfeited stakes, which receives the escrow's balance.
    pub penalty_pool: SystemAccount,
    /// The signer.
    pub user: Pubkey,
}

} // verus!
