//! The record store: every custody record, found by its (initializer,
//! receiver) key, with at most one record per key.
use vstd::prelude::*;

use crate::errors::EscrowError;
use crate::instructions::{
    cancel_escrow, deposit_escrow, deposit_outcome, initialize_escrow, release_escrow,
    release_outcome, settle_outcome, CancelEscrow, DepositEscrow, InitializeEscrow, ReleaseEscrow,
};
use crate::state::{fresh_escrow, Account, Escrow, Identity};

verus! {

/// Whether some record of `records` has the key (`initializer`, `receiver`).
pub open spec fn contains_key(records: Seq<Escrow>, initializer: Identity, receiver: Identity) -> bool {
    exists|k: int| 0 <= k < records.len() && (#[trigger] records[k]).has_key(initializer, receiver)
}

/// What creating the record keyed (`initializer`, `receiver`) with `amount`
/// returns, and the records after it: refused with `AlreadyExists` where the
/// key has a record already, else the new record is appended and its
/// position is its handle.
pub open spec fn create_step(
    records: Seq<Escrow>,
    initializer: Identity,
    receiver: Identity,
    amount: u64,
) -> (Result<usize, EscrowError>, Seq<Escrow>) {
    if contains_key(records, initializer, receiver) {
        (Err(EscrowError::AlreadyExists), records)
    } else {
        (Ok(records.len() as usize), records.push(fresh_escrow(initializer, receiver, amount)))
    }
}

/// No two records of `records` share a key.
pub open spec fn keys_unique(records: Seq<Escrow>) -> bool {
    forall|i: int, j: int|
        #![trigger records[i], records[j]]
        0 <= i < records.len() && 0 <= j < records.len() && records[i].has_key(
            records[j].initializer,
            records[j].receiver,
        ) ==> i == j
}

/// Every record, each under a handle: its position, which never changes.
pub struct EscrowStore {
    records: Vec<Escrow>,
}

impl View for EscrowStore {
    type V = Seq<Escrow>;

    closed spec fn view(&self) -> Seq<Escrow> {
        self.records@
    }
}

impl EscrowStore {
    /// The store's invariant: one record per key.
    pub open spec fn wf(&self) -> bool {
        keys_unique(self@)
    }

    pub fn new() -> (r: EscrowStore)
        ensures
            r.wf(),
            r@ == Seq::<Escrow>::empty(),
    {
        EscrowStore { records: Vec::new() }
    }

    /// The number of records.
    pub fn len(&self) -> (r: usize)
        ensures
            r == self@.len(),
    {
        self.records.len()
    }

    /// The record under `handle`.
    pub fn get(&self, handle: usize) -> (r: Escrow)
        requires
            handle < self@.len(),
        ensures
            r == self@[handle as int],
    {
        self.records[handle]
    }

    /// The handle of the record keyed (`initializer`, `receiver`), if any.
    pub fn find(&self, initializer: &Identity, receiver: &Identity) -> (r: Option<usize>)
        requires
            self.wf(),
        ensures
            r is None <==> !contains_key(self@, *initializer, *receiver),
            r matches Some(k) ==> k < self@.len() && self@[k as int].has_key(
                *initializer,
                *receiver,
            ),
    {
        let mut k: usize = 0;
        while k < self.records.len()
            invariant
                0 <= k <= self@.len(),
                self@ == self.records@,
                forall|j: int| 0 <= j < k ==> !(#[trigger] self@[j]).has_key(*initializer, *receiver),
            decreases self.records.len() - k,
        {
            let e = &self.records[k];
            if e.initializer.same_as(initializer) && e.receiver.same_as(receiver) {
                return Some(k);
            }
            k = k + 1;
        }
        None
    }

    /// Creates the record keyed (`ctx.initializer`, `ctx.receiver`) with the
    /// agreed `amount` and returns its handle. Where that key has a record
    /// already, refuses with `AlreadyExists` and leaves the store as it was.
    pub fn initialize_escrow(&mut self, ctx: &InitializeEscrow, amount: u64) -> (r: Result<
        usize,
        EscrowError,
    >)
        requires
            old(self).wf(),
        ensures
            final(self).wf(),
            (r, final(self)@) == create_step(old(self)@, ctx.initializer, ctx.receiver, amount),
    {
        if self.find(&ctx.initializer, &ctx.receiver).is_some() {
            return Err(EscrowError::AlreadyExists);
        }
        let handle = self.records.len();
        let e = initialize_escrow(ctx, amount);
        self.records.push(e);
        proof {
            assert(self@ == old(self)@.push(e));
            assert forall|i: int, j: int|
                #![trigger self@[i], self@[j]]
                0 <= i < self@.len() && 0 <= j < self@.len() && self@[i].has_key(
                    self@[j].initializer,
                    self@[j].receiver,
                ) implies i == j by {
                if i < handle && j == handle {
                    assert(old(self)@[i].has_key(ctx.initializer, ctx.receiver));
                }
                if j < handle && i == handle {
                    assert(old(self)@[j].has_key(ctx.initializer, ctx.receiver));
                }
            }
        }
        Ok(handle)
    }

    /// Funds the record under `handle` from `payer`, as `deposit_escrow` does.
    pub fn deposit(&mut self, handle: usize, payer: &mut Account) -> (r: Result<(), EscrowError>)
        requires
            old(self).wf(),
            handle < old(self)@.len(),
            old(payer).lamports + old(self)@[handle as int].balance <= u64::MAX,
        ensures
            final(self).wf(),
            r == deposit_outcome(old(self)@[handle as int], *old(payer)),
            r is Ok ==> {
                &&& final(self)@ == old(self)@.update(handle as int, old(self)@[handle as int].funded())
                &&& *final(payer) == old(payer).debited(old(self)@[handle as int].amount)
            },
            r is Err ==> final(self)@ == old(self)@ && *final(payer) == *old(payer),
            final(self)@[handle as int].balance + final(payer).lamports == old(self)@[handle as int].balance
                + old(payer).lamports,
    {
        let mut ctx = DepositEscrow { initializer: *payer, escrow: self.records[handle] };
        let r = deposit_escrow(&mut ctx);
        *payer = ctx.initializer;
        self.records.set(handle, ctx.escrow);
        proof {
            assert(self@ =~= old(self)@.update(handle as int, ctx.escrow));
            assert forall|i: int| 0 <= i < self@.len() implies (#[trigger] self@[i]).has_key(
                old(self)@[i].initializer,
                old(self)@[i].receiver,
            ) by {}
        }
        r
    }

    /// Releases the record under `handle` to `receiver` at the request of
    /// `caller`, as `release_escrow` does: only `receiver` is paid, and only
    /// when it is the record's stored receiver.
    pub fn release(&mut self, handle: usize, caller: &Account, receiver: &mut Account) -> (r:
        Result<(), EscrowError>)
        requires
            old(self).wf(),
            handle < old(self)@.len(),
            old(receiver).lamports + old(self)@[handle as int].balance <= u64::MAX,
        ensures
            final(self).wf(),
            r == release_outcome(old(self)@[handle as int], caller.key, old(receiver).key),
            r is Ok ==> {
                &&& final(self)@ == old(self)@.update(handle as int, old(self)@[handle as int].settled())
                &&& *final(receiver) == old(receiver).credited(old(self)@[handle as int].amount)
            },
            r is Err ==> final(self)@ == old(self)@ && *final(receiver) == *old(receiver),
            final(self)@[handle as int].balance + final(receiver).lamports == old(self)@[handle as int].balance
                + old(receiver).lamports,
    {
        let mut ctx = ReleaseEscrow {
            initializer: *caller,
            receiver: *receiver,
            escrow: self.records[handle],
        };
        let r = release_escrow(&mut ctx);
        *receiver = ctx.receiver;
        self.records.set(handle, ctx.escrow);
        proof {
            assert(self@ =~= old(self)@.update(handle as int, ctx.escrow));
            assert forall|i: int| 0 <= i < self@.len() implies (#[trigger] self@[i]).has_key(
                old(self)@[i].initializer,
                old(self)@[i].receiver,
            ) by {}
        }
        r
    }

    /// Cancels the record under `handle`, paying its amount back to
    /// `initializer`, as `cancel_escrow` does.
    pub fn cancel(&mut self, handle: usize, initializer: &mut Account) -> (r: Result<(), EscrowError>)
        requires
            old(self).wf(),
            handle < old(self)@.len(),
            old(initializer).lamports + old(self)@[handle as int].balance <= u64::MAX,
        ensures
            final(self).wf(),
            r == settle_outcome(old(self)@[handle as int], old(initializer).key),
            r is Ok ==> {
                &&& final(self)@ == old(self)@.update(handle as int, old(self)@[handle as int].settled())
                &&& *final(initializer) == old(initializer).credited(old(self)@[handle as int].amount)
            },
            r is Err ==> final(self)@ == old(self)@ && *final(initializer) == *old(initializer),
            final(self)@[handle as int].balance + final(initializer).lamports == old(self)@[
                handle as int].balance + old(initializer).lamports,
    {
        let mut ctx = CancelEscrow { initializer: *initializer, escrow: self.records[handle] };
        let r = cancel_escrow(&mut ctx);
        *initializer = ctx.initializer;
        self.records.set(handle, ctx.escrow);
        proof {
            assert(self@ =~= old(self)@.update(handle as int, ctx.escrow));
            assert forall|i: int| 0 <= i < self@.len() implies (#[trigger] self@[i]).has_key(
                old(self)@[i].initializer,
                old(self)@[i].receiver,
            ) by {}
        }
        r
    }
}

} // verus!
