//! Laws of the escrow that relate its operations to one another.
use vstd::prelude::*;

use crate::errors::EscrowError;
use crate::instructions::{deposit_outcome, release_outcome, settle_outcome};
use crate::state::{Account, Escrow, Identity};
use crate::store::{contains_key, create_step};

verus! {

/// One record per key: once a creation for (`initializer`, `receiver`) has
/// run, a second creation for the same pair is refused with `AlreadyExists`
/// and leaves every record, the first one included, as it was.
pub proof fn lemma_single_creation(
    records: Seq<Escrow>,
    initializer: Identity,
    receiver: Identity,
    first_amount: u64,
    second_amount: u64,
)
    ensures
        ({
            let after_first = create_step(records, initializer, receiver, first_amount).1;
            create_step(after_first, initializer, receiver, second_amount) == (Err::<
                usize,
                EscrowError,
            >(EscrowError::AlreadyExists), after_first)
        }),
{
    let after_first = create_step(records, initializer, receiver, first_amount).1;
    if !contains_key(records, initializer, receiver) {
        let k = records.len() as int;
        assert(after_first[k].has_key(initializer, receiver));
    }
}

/// Settlement happens once: a settlement that succeeds leaves the record
/// settled, and on a settled record every later release, cancel or funding
/// by its initializer is refused with `AlreadyReleased`, by anyone else with
/// `Unauthorized`; a refused operation changes nothing, so it stays settled.
pub proof fn lemma_settles_once(escrow: Escrow, caller: Identity, target: Identity, payer: Account)
    ensures
        escrow.settled().is_released,
        escrow.is_released ==> settle_outcome(escrow, caller) is Err,
        escrow.is_released ==> release_outcome(escrow, caller, target) is Err,
        escrow.is_released ==> deposit_outcome(escrow, payer) is Err,
        escrow.is_released && caller == escrow.initializer ==> settle_outcome(escrow, caller)
            == Err::<(), EscrowError>(EscrowError::AlreadyReleased),
        escrow.is_released && caller == escrow.initializer && target == escrow.receiver
            ==> release_outcome(escrow, caller, target) == Err::<(), EscrowError>(
            EscrowError::AlreadyReleased,
        ),
        escrow.is_released && payer.key == escrow.initializer ==> deposit_outcome(escrow, payer)
            == Err::<(), EscrowError>(EscrowError::AlreadyReleased),
{
}

/// Only the initializer acts on a record: funding, release and cancel by any
/// other identity are refused with `Unauthorized`.
pub proof fn lemma_only_initializer_acts(
    escrow: Escrow,
    caller: Identity,
    target: Identity,
    payer: Account,
)
    ensures
        caller != escrow.initializer ==> settle_outcome(escrow, caller) == Err::<(), EscrowError>(
            EscrowError::Unauthorized,
        ),
        caller != escrow.initializer ==> release_outcome(escrow, caller, target) == Err::<
            (),
            EscrowError,
        >(EscrowError::Unauthorized),
        payer.key != escrow.initializer ==> deposit_outcome(escrow, payer) == Err::<
            (),
            EscrowError,
        >(EscrowError::Unauthorized),
{
}

/// A release pays the stored receiver only: it succeeds only when the
/// account to be paid is keyed by the record's receiver, and any other
/// account is refused with `Unauthorized`.
pub proof fn lemma_release_pays_stored_receiver(escrow: Escrow, caller: Identity, target: Identity)
    ensures
        release_outcome(escrow, caller, target) is Ok ==> target == escrow.receiver,
        target != escrow.receiver ==> release_outcome(escrow, caller, target) == Err::<
            (),
            EscrowError,
        >(EscrowError::Unauthorized),
{
}

} // verus!
