//! The four operations on one custody record: create, fund, release and
//! cancel. Each takes the accounts it works on and either applies its whole
//! effect or refuses with an `EscrowError` and changes nothing.
use vstd::prelude::*;

use crate::errors::EscrowError;
use crate::state::{fresh_escrow, Account, Escrow, Identity};

verus! {

/// The outcome of funding `escrow` from the account `payer`: the payer must
/// be the initializer, the record must be unsettled, and the payer must hold
/// at least the record's amount.
pub open spec fn deposit_outcome(escrow: Escrow, payer: Account) -> Result<(), EscrowError> {
    if payer.key != escrow.initializer {
        Err(EscrowError::Unauthorized)
    } else if escrow.is_released {
        Err(EscrowError::AlreadyReleased)
    } else if payer.lamports < escrow.amount {
        Err(EscrowError::InsufficientBalance)
    } else {
        Ok(())
    }
}

/// The outcome of settling `escrow` at the request of `caller`: the caller
/// must be the initializer, the record must be unsettled, and it must hold
/// at least its amount.
pub open spec fn settle_outcome(escrow: Escrow, caller: Identity) -> Result<(), EscrowError> {
    if caller != escrow.initializer {
        Err(EscrowError::Unauthorized)
    } else if escrow.is_released {
        Err(EscrowError::AlreadyReleased)
    } else if escrow.balance < escrow.amount {
        if escrow.balance == 0 {
            Err(EscrowError::NotFunded)
        } else {
            Err(EscrowError::InsufficientBalance)
        }
    } else {
        Ok(())
    }
}

/// The outcome of releasing `escrow` to the account keyed `target`: as for
/// any settlement, and the target must be the record's stored receiver.
pub open spec fn release_outcome(escrow: Escrow, caller: Identity, target: Identity) -> Result<
    (),
    EscrowError,
> {
    if target != escrow.receiver {
        Err(EscrowError::Unauthorized)
    } else {
        settle_outcome(escrow, caller)
    }
}

/// The parties to a new record.
#[derive(Clone, Copy, Debug)]
pub struct InitializeEscrow {
    pub initializer: Identity,
    pub receiver: Identity,
}

/// The accounts that funding works on.
#[derive(Clone, Copy, Debug)]
pub struct DepositEscrow {
    pub initializer: Account,
    pub escrow: Escrow,
}

/// The accounts that a release works on.
#[derive(Clone, Copy, Debug)]
pub struct ReleaseEscrow {
    pub initializer: Account,
    pub receiver: Account,
    pub escrow: Escrow,
}

/// The accounts that a cancel works on.
#[derive(Clone, Copy, Debug)]
pub struct CancelEscrow {
    pub initializer: Account,
    pub escrow: Escrow,
}

fn check_settle(escrow: &Escrow, caller: &Identity) -> (r: Result<(), EscrowError>)
    ensures
        r == settle_outcome(*escrow, *caller),
{
    if !caller.same_as(&escrow.initializer) {
        return Err(EscrowError::Unauthorized);
    }
    if escrow.is_released {
        return Err(EscrowError::AlreadyReleased);
    }
    if escrow.balance < escrow.amount {
        if escrow.balance == 0 {
            return Err(EscrowError::NotFunded);
        }
        return Err(EscrowError::InsufficientBalance);
    }
    Ok(())
}

/// Makes the record for (`ctx.initializer`, `ctx.receiver`) with the agreed
/// `amount`, holding nothing and unsettled.
pub fn initialize_escrow(ctx: &InitializeEscrow, amount: u64) -> (r: Escrow)
    ensures
        r == fresh_escrow(ctx.initializer, ctx.receiver, amount),
{
    Escrow::new(ctx.initializer, ctx.receiver, amount)
}

/// Moves exactly the record's amount from the initializer's account into
/// the record. The two balances together fit a `u64`, as every balance of
/// one ledger does.
pub fn deposit_escrow(ctx: &mut DepositEscrow) -> (r: Result<(), EscrowError>)
    requires
        old(ctx).initializer.lamports + old(ctx).escrow.balance <= u64::MAX,
    ensures
        r == deposit_outcome(old(ctx).escrow, old(ctx).initializer),
        r is Ok ==> {
            &&& final(ctx).escrow == old(ctx).escrow.funded()
            &&& final(ctx).initializer == old(ctx).initializer.debited(old(ctx).escrow.amount)
        },
        r is Err ==> *final(ctx) == *old(ctx),
        final(ctx).escrow.balance + final(ctx).initializer.lamports == old(ctx).escrow.balance
            + old(ctx).initializer.lamports,
{
    if !ctx.initializer.key.same_as(&ctx.escrow.initializer) {
        return Err(EscrowError::Unauthorized);
    }
    if ctx.escrow.is_released {
        return Err(EscrowError::AlreadyReleased);
    }
    let amount = ctx.escrow.amount;
    if ctx.initializer.lamports < amount {
        return Err(EscrowError::InsufficientBalance);
    }
    ctx.initializer.lamports = ctx.initializer.lamports - amount;
    ctx.escrow.balance = ctx.escrow.balance + amount;
    Ok(())
}

/// Settles the record by paying its amount to its stored receiver. The
/// account to be paid must be that receiver; the initializer's account is
/// left as it is. The receiver's balance and the record's together fit a
/// `u64`.
pub fn release_escrow(ctx: &mut ReleaseEscrow) -> (r: Result<(), EscrowError>)
    requires
        old(ctx).receiver.lamports + old(ctx).escrow.balance <= u64::MAX,
    ensures
        r == release_outcome(old(ctx).escrow, old(ctx).initializer.key, old(ctx).receiver.key),
        r is Ok ==> {
            &&& final(ctx).escrow == old(ctx).escrow.settled()
            &&& final(ctx).receiver == old(ctx).receiver.credited(old(ctx).escrow.amount)
            &&& final(ctx).initializer == old(ctx).initializer
        },
        r is Err ==> *final(ctx) == *old(ctx),
        final(ctx).escrow.balance + final(ctx).initializer.lamports + final(ctx).receiver.lamports
            == old(ctx).escrow.balance + old(ctx).initializer.lamports
            + old(ctx).receiver.lamports,
{
    if !ctx.receiver.key.same_as(&ctx.escrow.receiver) {
        return Err(EscrowError::Unauthorized);
    }
    let checked = check_settle(&ctx.escrow, &ctx.initializer.key);
    if checked.is_err() {
        return checked;
    }
    let amount = ctx.escrow.amount;
    ctx.escrow.balance = ctx.escrow.balance - amount;
    ctx.receiver.lamports = ctx.receiver.lamports + amount;
    ctx.escrow.is_released = true;
    Ok(())
}

/// Settles the record by paying its amount back to the initializer.
/// The initializer's balance and the record's together fit a `u64`.
pub fn cancel_escrow(ctx: &mut CancelEscrow) -> (r: Result<(), EscrowError>)
    requires
        old(ctx).initializer.lamports + old(ctx).escrow.balance <= u64::MAX,
    ensures
        r == settle_outcome(old(ctx).escrow, old(ctx).initializer.key),
        r is Ok ==> {
            &&& final(ctx).escrow == old(ctx).escrow.settled()
            &&& final(ctx).initializer == old(ctx).initializer.credited(old(ctx).escrow.amount)
        },
        r is Err ==> *final(ctx) == *old(ctx),
        final(ctx).escrow.balance + final(ctx).initializer.lamports == old(ctx).escrow.balance
            + old(ctx).initializer.lamports,
{
    let checked = check_settle(&ctx.escrow, &ctx.initializer.key);
    if checked.is_err() {
        return checked;
    }
    let amount = ctx.escrow.amount;
    ctx.escrow.balance = ctx.escrow.balance - amount;
    ctx.initializer.lamports = ctx.initializer.lamports + amount;
    ctx.escrow.is_released = true;
    Ok(())
}

} // verus!
