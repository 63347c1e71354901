use vstd::prelude::*;

use crate::pubkey::Pubkey;

verus! {

/// The per-participant record kept in an escrow account.
#[derive(Clone, Copy, Debug)]
pub struct Escrow {
    /// The participant who controls the record; fixed at creation.
    pub user: Pubkey,
    /// The stake declared at creation, in lamports.
    pub stake_amount: u64,
    /// The highest focus score reported so far.
    pub focus_score: u64,
    /// Whether the session has been marked complete; never reset.
    pub completed: bool,
    /// The canonical salt from which the ledger re-derives the escrow address.
    pub bump: u8,
}

/// An escrow account: the record together with the lamports held in custody.
#[derive(Clone, Copy, Debug)]
pub struct EscrowAccount {
    pub lamports: u64,
    pub data: Escrow,
}

/// A plain ledger account (a participant's wallet, or the penalty pool).
#[derive(Clone, Copy, Debug)]
pub struct SystemAccount {
    pub key: Pubkey,
    pub lamports: u64,
}

/// An escrow operation as it is requested, without the accounts it touches.
pub enum Operation {
    DepositStake(u64),
    UpdateFocusScore(u64),
    CompleteSession,
    ClaimReward,
    ForfeitStake,
}

impl Escrow {
    /// Number of bytes the record takes in account storage: the owner (32),
    /// the stake (8), the score (8), the completion flag (1) and the
    /// derivation salt (1).
    pub const LEN: usize = 50;

    /// A fresh record: nothing scored, not completed.
    pub open spec fn created(user: Pubkey, stake_amount: u64, bump: u8) -> Escrow {
        Escrow { user, stake_amount, focus_score: 0, completed: false, bump }
    }

    pub open spec fn is_owned_by(self, signer: Seq<u8>) -> bool {
        self.user@ == signer
    }

    /// The record after its owner reports `new_score`: only a higher score
    /// is kept, a lower or equal one is dropped.
    pub open spec fn with_score_reported(self, new_score: u64) -> Escrow {
        if new_score > self.focus_score {
            Escrow { focus_score: new_score, ..self }
        } else {
            self
        }
    }

    pub open spec fn marked_completed(self) -> Escrow {
        Escrow { completed: true, ..self }
    }

    /// The record after `signer` requests `op`, whether or not the operation
    /// succeeds. Only the owner can change the record, and only the score
    /// report and the completion touch it at all.
    pub open spec fn after(self, signer: Seq<u8>, op: Operation) -> Escrow {
        if !self.is_owned_by(signer) {
            self
        } else {
            match op {
                Operation::UpdateFocusScore(s) => self.with_score_reported(s),
                Operation::CompleteSession => self.marked_completed(),
                _ => self,
            }
        }
    }
}

/// The record after a sequence of requests, each given with its signer.
pub open spec fn replay(record: Escrow, requests: Seq<(Seq<u8>, Operation)>) -> Escrow
    decreases requests.len(),
{
    if requests.len() == 0 {
        record
    } else {
        let last = requests.last();
        replay(record, requests.drop_last()).after(last.0, last.1)
    }
}

/// Half of the penalty pool, rounded down: the bonus a claim takes from it.
pub open spec fn bonus_of(pool: u64) -> u64 {
    pool / 2
}

} // verus!
