//! Identities and units shared by the escrow and dispute ledgers.
//!
//! Amounts are whole micro-CCD and points in time are milliseconds since the
//! Unix epoch, both held as `u64`.

use vstd::prelude::*;

verus! {

/// Number of bytes in an account address.
pub const ACCOUNT_ADDRESS_SIZE: usize = 32;

/// Address of an account, as raw bytes.
#[derive(Clone, Copy, Debug)]
pub struct AccountAddress(pub [u8; 32]);

impl PartialEq for AccountAddress {
    fn eq(&self, other: &AccountAddress) -> (r: bool) {
        let mut i: usize = 0;
        while i < ACCOUNT_ADDRESS_SIZE
            invariant
                i <= ACCOUNT_ADDRESS_SIZE,
                forall|j: int| 0 <= j < i ==> self.0@[j] == other.0@[j],
            decreases ACCOUNT_ADDRESS_SIZE - i,
        {
            if self.0[i] != other.0[i] {
                return false;
            }
            i += 1;
        }
        assert(self.0 =~= other.0);
        true
    }
}

impl Eq for AccountAddress {

}

impl vstd::std_specs::cmp::PartialEqSpecImpl for AccountAddress {
    open spec fn obeys_eq_spec() -> bool {
        true
    }

    open spec fn eq_spec(&self, other: &AccountAddress) -> bool {
        *self == *other
    }
}

/// Address of a contract instance.
#[derive(Clone, Copy, Debug, PartialEq, Eq, Structural)]
pub struct ContractAddress {
    pub index: u64,
    pub subindex: u64,
}

/// Whoever invoked an operation: an account or a contract instance.
#[derive(Clone, Copy, Debug)]
pub enum Address {
    Account(AccountAddress),
    Contract(ContractAddress),
}

impl PartialEq for Address {
    fn eq(&self, other: &Address) -> (r: bool) {
        match (self, other) {
            (Address::Account(a), Address::Account(b)) => *a == *b,
            (Address::Contract(a), Address::Contract(b)) => *a == *b,
            _ => false,
        }
    }
}

impl Eq for Address {

}

impl vstd::std_specs::cmp::PartialEqSpecImpl for Address {
    open spec fn obeys_eq_spec() -> bool {
        true
    }

    open spec fn eq_spec(&self, other: &Address) -> bool {
        *self == *other
    }
}

/// What an operation learns from the transaction that invoked it.
#[derive(Clone, Copy, Debug)]
pub struct CallContext {
    /// The immediate caller.
    pub sender: Address,
    /// Micro-CCD sent along with the call.
    pub amount: u64,
    /// Time of the block that holds the transaction, in milliseconds.
    pub slot_time: u64,
}

} // verus!
