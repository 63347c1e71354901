use vstd::prelude::*;

use crate::accounts::{
    ClaimReward, CompleteSession, DepositStake, ForfeitStake, InitializeEscrow, UpdateFocusScore,
};
use crate::error::{ErrorCode, ProgramError};
use crate::state::{bonus_of, Escrow, EscrowAccount, Operation, SystemAccount};

verus! {

/// Which error a deposit ends with, or `Ok` when it goes through.
pub open spec fn deposit_outcome(ctx: DepositStake, amount: u64) -> Result<(), ProgramError> {
    if !ctx.escrow.data.is_owned_by(ctx.user.key@) {
        Err(ProgramError::Custom(ErrorCode::UnauthorizedUser))
    } else if ctx.user.lamports < amount {
        Err(ProgramError::InsufficientFunds)
    } else if ctx.escrow.lamports + amount > u64::MAX {
        Err(ProgramError::ArithmeticOverflow)
    } else {
        Ok(())
    }
}

/// Which error a claim ends with, or `Ok` when it goes through.
pub open spec fn claim_outcome(ctx: ClaimReward) -> Result<(), ProgramError> {
    let record = ctx.escrow.data;
    if !record.is_owned_by(ctx.user.key@) {
        Err(ProgramError::Custom(ErrorCode::UnauthorizedUser))
    } else if !record.completed {
        Err(ProgramError::Custom(ErrorCode::SessionNotCompleted))
    } else if ctx.escrow.lamports < record.stake_amount {
        Err(ProgramError::InsufficientFunds)
    } else if ctx.user.lamports + record.stake_amount + bonus_of(ctx.penalty_pool.lamports)
        > u64::MAX {
        Err(ProgramError::ArithmeticOverflow)
    } else {
        Ok(())
    }
}

/// Which error a forfeiture ends with, or `Ok` when it goes through.
pub open spec fn forfeit_outcome(ctx: ForfeitStake) -> Result<(), ProgramError> {
    if !ctx.escrow.data.is_owned_by(ctx.user@) {
        Err(ProgramError::Custom(ErrorCode::UnauthorizedUser))
    } else if ctx.penalty_pool.lamports + ctx.escrow.lamports > u64::MAX {
        Err(ProgramError::ArithmeticOverflow)
    } else {
        Ok(())
    }
}

/// Opens the signer's escrow with the declared stake, no score and the
/// session not completed. The stake is only recorded here; it is funded by
/// `deposit_stake`.
pub fn initialize_escrow(ctx: &mut InitializeEscrow, stake_amount: u64) -> (r: Result<
    (),
    ProgramError,
>)
    ensures
        old(ctx).escrow is Some <==> r == Err::<(), ProgramError>(
            ProgramError::AccountAlreadyInitialized,
        ),
        r is Ok <==> old(ctx).escrow is None,
        r is Ok ==> *final(ctx) == (InitializeEscrow {
            escrow: Some(Escrow::created(old(ctx).user.key, stake_amount, old(ctx).bump)),
            ..*old(ctx)
        }),
        r is Err ==> *final(ctx) == *old(ctx),
{
    if ctx.escrow.is_some() {
        return Err(ProgramError::AccountAlreadyInitialized);
    }
    ctx.escrow = Some(
        Escrow {
            user: ctx.user.key,
            stake_amount,
            focus_score: 0,
            completed: false,
            bump: ctx.bump,
        },
    );
    Ok(())
}

/// Moves `amount` lamports from the signer's wallet into their escrow.
pub fn deposit_stake(ctx: &mut DepositStake, amount: u64) -> (r: Result<(), ProgramError>)
    ensures
        r == deposit_outcome(*old(ctx), amount),
        r is Ok ==> *final(ctx) == (DepositStake {
            escrow: EscrowAccount { lamports: (old(ctx).escrow.lamports + amount) as u64, ..old(ctx).escrow },
            user: SystemAccount { lamports: (old(ctx).user.lamports - amount) as u64, ..old(ctx).user },
        }),
        r is Err ==> *final(ctx) == *old(ctx),
        final(ctx).escrow.lamports + final(ctx).user.lamports == old(ctx).escrow.lamports
            + old(ctx).user.lamports,
        final(ctx).escrow.data == old(ctx).escrow.data.after(
            old(ctx).user.key@,
            Operation::DepositStake(amount),
        ),
{
    if ctx.escrow.data.user != ctx.user.key {
        return Err(ProgramError::Custom(ErrorCode::UnauthorizedUser));
    }
    if ctx.user.lamports < amount {
        return Err(ProgramError::InsufficientFunds);
    }
    match ctx.escrow.lamports.checked_add(amount) {
        None => Err(ProgramError::ArithmeticOverflow),
        Some(held) => {
            ctx.user.lamports = ctx.user.lamports - amount;
            ctx.escrow.lamports = held;
            Ok(())
        },
    }
}

/// Records a new focus score when it is higher than the stored one; a lower
/// or equal report is dropped without an error.
pub fn update_focus_score(ctx: &mut UpdateFocusScore, new_score: u64) -> (r: Result<
    (),
    ProgramError,
>)
    ensures
        r is Ok <==> old(ctx).escrow.data.is_owned_by(old(ctx).user@),
        r is Err ==> r == Err::<(), ProgramError>(ProgramError::Custom(ErrorCode::UnauthorizedUser)),
        final(ctx).escrow.data == old(ctx).escrow.data.after(
            old(ctx).user@,
            Operation::UpdateFocusScore(new_score),
        ),
        final(ctx).escrow.lamports == old(ctx).escrow.lamports,
        final(ctx).user == old(ctx).user,
        r is Ok ==> final(ctx).escrow.data.focus_score == if new_score > old(
            ctx,
        ).escrow.data.focus_score {
            new_score
        } else {
            old(ctx).escrow.data.focus_score
        },
{
    if ctx.escrow.data.user != ctx.user {
        return Err(ProgramError::Custom(ErrorCode::UnauthorizedUser));
    }
    if new_score > ctx.escrow.data.focus_score {
        ctx.escrow.data.focus_score = new_score;
    }
    Ok(())
}

/// Marks the session complete. Calling it again changes nothing.
pub fn complete_session(ctx: &mut CompleteSession) -> (r: Result<(), ProgramError>)
    ensures
        r is Ok <==> old(ctx).escrow.data.is_owned_by(old(ctx).user@),
        r is Err ==> r == Err::<(), ProgramError>(ProgramError::Custom(ErrorCode::UnauthorizedUser)),
        final(ctx).escrow.data == old(ctx).escrow.data.after(
            old(ctx).user@,
            Operation::CompleteSession,
        ),
        final(ctx).escrow.lamports == old(ctx).escrow.lamports,
        final(ctx).user == old(ctx).user,
        r is Ok ==> final(ctx).escrow.data.completed,
{
    if ctx.escrow.data.user != ctx.user {
        return Err(ProgramError::Custom(ErrorCode::UnauthorizedUser));
    }
    ctx.escrow.data.completed = true;
    Ok(())
}

/// Pays the declared stake back from the escrow to its owner, together with
/// half of the penalty pool (rounded down), once the session is complete.
pub fn claim_reward(ctx: &mut ClaimReward) -> (r: Result<(), ProgramError>)
    ensures
        r == claim_outcome(*old(ctx)),
        r is Ok ==> *final(ctx) == (ClaimReward {
            escrow: EscrowAccount {
                lamports: (old(ctx).escrow.lamports - old(ctx).escrow.data.stake_amount) as u64,
                ..old(ctx).escrow
            },
            user: SystemAccount {
                lamports: (old(ctx).user.lamports + old(ctx).escrow.data.stake_amount + bonus_of(
                    old(ctx).penalty_pool.lamports,
                )) as u64,
                ..old(ctx).user
            },
            penalty_pool: SystemAccount {
                lamports: (old(ctx).penalty_pool.lamports - bonus_of(
                    old(ctx).penalty_pool.lamports,
                )) as u64,
                ..old(ctx).penalty_pool
            },
        }),
        r is Err ==> *final(ctx) == *old(ctx),
        final(ctx).escrow.lamports + final(ctx).user.lamports + final(ctx).penalty_pool.lamports
            == old(ctx).escrow.lamports + old(ctx).user.lamports + old(ctx).penalty_pool.lamports,
        final(ctx).escrow.data == old(ctx).escrow.data.after(
            old(ctx).user.key@,
            Operation::ClaimReward,
        ),
{
    let record = ctx.escrow.data;
    if record.user != ctx.user.key {
        return Err(ProgramError::Custom(ErrorCode::UnauthorizedUser));
    }
    if !record.completed {
        return Err(ProgramError::Custom(ErrorCode::SessionNotCompleted));
    }
    let stake_amount = record.stake_amount;
    if ctx.escrow.lamports < stake_amount {
        return Err(ProgramError::InsufficientFunds);
    }
    let pool_balance = ctx.penalty_pool.lamports;
    let bonus = if pool_balance > 0 {
        pool_balance / 2
    } else {
        0
    };
    let payout = match stake_amount.checked_add(bonus) {
        None => return Err(ProgramError::ArithmeticOverflow),
        Some(p) => p,
    };
    let received = match ctx.user.lamports.checked_add(payout) {
        None => return Err(ProgramError::ArithmeticOverflow),
        Some(b) => b,
    };
    ctx.escrow.lamports = ctx.escrow.lamports - stake_amount;
    ctx.penalty_pool.lamports = pool_balance - bonus;
    ctx.user.lamports = received;
    Ok(())
}

/// Moves everything the escrow holds into the penalty pool, whether or not
/// the session was completed.
pub fn forfeit_stake(ctx: &mut ForfeitStake) -> (r: Result<(), ProgramError>)
    ensures
        r == forfeit_outcome(*old(ctx)),
        r is Ok ==> *final(ctx) == (ForfeitStake {
            escrow: EscrowAccount { lamports: 0, ..old(ctx).escrow },
            penalty_pool: SystemAccount {
                lamports: (old(ctx).penalty_pool.lamports + old(ctx).escrow.lamports) as u64,
                ..old(ctx).penalty_pool
            },
            ..*old(ctx)
        }),
        r is Err ==> *final(ctx) == *old(ctx),
        final(ctx).escrow.lamports + final(ctx).penalty_pool.lamports == old(ctx).escrow.lamports
            + old(ctx).penalty_pool.lamports,
        final(ctx).escrow.data == old(ctx).escrow.data.after(
            old(ctx).user@,
            Operation::ForfeitStake,
        ),
{
    if ctx.escrow.data.user != ctx.user {
        return Err(ProgramError::Custom(ErrorCode::UnauthorizedUser));
    }
    let escrow_balance = ctx.escrow.lamports;
    match ctx.penalty_pool.lamports.checked_add(escrow_balance) {
        None => Err(ProgramError::ArithmeticOverflow),
        Some(pool) => {
            ctx.escrow.lamports = 0;
            ctx.penalty_pool.lamports = pool;
            Ok(())
        },
    }
}

} // verus!
