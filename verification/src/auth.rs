//! Who may perform an operation.
//!
//! Every guarded operation names the set of callers it admits: the admin, the
//! admin or the registered peer contract, or the parties of a transaction.

use vstd::prelude::*;
use crate::types::{AccountAddress, Address, ContractAddress};

verus! {

/// Whether the caller is the given account.
pub open spec fn is_account_spec(caller: Address, account: AccountAddress) -> bool {
    caller == Address::Account(account)
}

/// Whether the caller is one of two accounts.
pub open spec fn is_either_spec(
    caller: Address,
    first: AccountAddress,
    second: AccountAddress,
) -> bool {
    is_account_spec(caller, first) || is_account_spec(caller, second)
}

/// Whether the caller is the admin or the registered peer contract. While no
/// peer is registered only the admin is.
pub open spec fn is_admin_or_peer_spec(
    caller: Address,
    registered_peer: Option<ContractAddress>,
    admin: AccountAddress,
) -> bool {
    is_account_spec(caller, admin) || (registered_peer matches Some(peer) && caller
        == Address::Contract(peer))
}

/// Whether the caller is the given account.
pub fn is_account(caller: &Address, account: &AccountAddress) -> (allowed: bool)
    ensures
        allowed == is_account_spec(*caller, *account),
{
    match caller {
        Address::Account(sender) => *sender == *account,
        Address::Contract(_) => false,
    }
}

/// Whether the caller is one of two accounts, such as the buyer and the seller
/// of a transaction.
pub fn is_either(
    caller: &Address,
    first: &AccountAddress,
    second: &AccountAddress,
) -> (allowed: bool)
    ensures
        allowed == is_either_spec(*caller, *first, *second),
{
    is_account(caller, first) || is_account(caller, second)
}

/// Whether the caller is the admin or the registered peer contract.
pub fn is_admin_or_peer(
    caller: &Address,
    registered_peer: &Option<ContractAddress>,
    admin: &AccountAddress,
) -> (allowed: bool)
    ensures
        allowed == is_admin_or_peer_spec(*caller, *registered_peer, *admin),
{
    match caller {
        Address::Account(sender) => *sender == *admin,
        Address::Contract(sender) => match registered_peer {
            Some(peer) => *sender == *peer,
            None => false,
        },
    }
}

} // verus!
