//! The identities, ledger accounts and custody records the escrow works on.
use vstd::prelude::*;

verus! {

/// A party's 32-byte public key.
#[derive(Clone, Copy, Debug, PartialEq, Eq)]
pub struct Identity {
    pub bytes: [u8; 32],
}

impl Identity {
    pub fn new(bytes: [u8; 32]) -> (r: Identity)
        ensures
            r.bytes == bytes,
    {
        Identity { bytes }
    }

    /// Whether two keys are the same key, byte for byte.
    pub fn same_as(&self, other: &Identity) -> (r: bool)
        ensures
            r == (*self == *other),
    {
        let mut i: usize = 0;
        while i < 32
            invariant
                0 <= i <= 32,
                forall|j: int| 0 <= j < i ==> self.bytes[j] == other.bytes[j],
            decreases 32 - i,
        {
            if self.bytes[i] != other.bytes[i] {
                return false;
            }
            i = i + 1;
        }
        proof {
            broadcast use vstd::array::group_array_axioms;
            assert(self.bytes =~= other.bytes);
        }
        true
    }
}

/// A party's spendable balance outside any escrow, held under its key.
#[derive(Clone, Copy, Debug, PartialEq, Eq)]
pub struct Account {
    pub key: Identity,
    pub lamports: u64,
}

impl Account {
    pub fn new(key: Identity, lamports: u64) -> (r: Account)
        ensures
            r.key == key,
            r.lamports == lamports,
    {
        Account { key, lamports }
    }

    /// This account after `v` was paid into it.
    pub open spec fn credited(self, v: u64) -> Account {
        Account { lamports: (self.lamports + v) as u64, ..self }
    }

    /// This account after `v` was taken out of it.
    pub open spec fn debited(self, v: u64) -> Account {
        Account { lamports: (self.lamports - v) as u64, ..self }
    }
}

/// A custody record. Its key is the pair (`initializer`, `receiver`);
/// `amount` is the agreed value, `balance` the value the record holds now,
/// and `is_released` turns true once, when the record is settled.
#[derive(Clone, Copy, Debug, PartialEq, Eq)]
pub struct Escrow {
    pub initializer: Identity,
    pub receiver: Identity,
    pub amount: u64,
    pub balance: u64,
    pub is_released: bool,
}

/// The record that creation makes: nothing held yet and not settled.
pub open spec fn fresh_escrow(initializer: Identity, receiver: Identity, amount: u64) -> Escrow {
    Escrow { initializer, receiver, amount, balance: 0, is_released: false }
}

impl Escrow {
    pub fn new(initializer: Identity, receiver: Identity, amount: u64) -> (r: Escrow)
        ensures
            r == fresh_escrow(initializer, receiver, amount),
    {
        Escrow { initializer, receiver, amount, balance: 0, is_released: false }
    }

    /// Whether this record is the one keyed by (`initializer`, `receiver`).
    pub open spec fn has_key(self, initializer: Identity, receiver: Identity) -> bool {
        self.initializer == initializer && self.receiver == receiver
    }

    /// This record after it took in its amount.
    pub open spec fn funded(self) -> Escrow {
        Escrow { balance: (self.balance + self.amount) as u64, ..self }
    }

    /// This record after it paid out its amount and was settled.
    pub open spec fn settled(self) -> Escrow {
        Escrow { balance: (self.balance - self.amount) as u64, is_released: true, ..self }
    }
}

} // verus!
