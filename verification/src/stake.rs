//! The stake that backs each kitty: reserved by whoever comes to own it,
//! given back to whoever owned it before.

use vstd::prelude::*;
use crate::balances::{reserved, unreserved, Accounts, Balance, Balances};
use crate::dna::AccountId;
use crate::error::Error;

verus! {

/// `accounts` after the stake for one kitty moved to `new_owner`: the new
/// owner reserves `stake_amount`, then the old owner, if there is one, gets
/// back what it has reserved, up to `stake_amount`.
pub open spec fn restaked(
    accounts: Accounts,
    stake_amount: Balance,
    old_owner: Option<AccountId>,
    new_owner: AccountId,
) -> Accounts {
    let staked = reserved(accounts, new_owner, stake_amount);
    match old_owner {
        Some(owner) => unreserved(staked, owner, stake_amount),
        None => staked,
    }
}

/// Moves the stake for one kitty to its new owner. The new owner reserves
/// first: if its free balance does not cover the stake, nothing changes and
/// the old owner's stake stays reserved. Giving the old owner its stake back
/// comes last and cannot fail.
pub fn on_ownership_change(
    balances: &mut Balances,
    stake_amount: Balance,
    old_owner: Option<AccountId>,
    new_owner: AccountId,
) -> (changed: Result<(), Error>)
    requires
        old(balances).wf(),
    ensures
        final(balances).wf(),
        match changed {
            Ok(_) => {
                &&& stake_amount <= old(balances)@[new_owner].free
                &&& final(balances)@ == restaked(old(balances)@, stake_amount, old_owner, new_owner)
            },
            Err(error) => {
                &&& error == Error::InsufficientStakeAmount
                &&& stake_amount > old(balances)@[new_owner].free
                &&& final(balances)@ == old(balances)@
            },
        },
{
    if !balances.reserve(new_owner, stake_amount) {
        return Err(Error::InsufficientStakeAmount);
    }
    match old_owner {
        Some(owner) => {
            let _ = balances.unreserve(owner, stake_amount);
        },
        None => {},
    }
    Ok(())
}

} // verus!
