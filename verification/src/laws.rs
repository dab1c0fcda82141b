//! What holds of every ledger whose tables agree, whatever is dispatched.

use vstd::prelude::*;
use crate::balances::Balance;
use crate::dna::{AccountId, Kitty};
use crate::error::{Error, Event};
use crate::inventory::{lemma_push_fresh, lemma_without, without, KittyIndex, MAX_OWNER_KITTY};
use crate::state::State;

verus! {

/// One more stake is the stake times one more kitty.
proof fn lemma_one_more_stake(stake_amount: Balance, held: nat)
    ensures
        stake_amount * (held + 1) == stake_amount * held + stake_amount,
        held >= 1 ==> stake_amount * (held - 1) == stake_amount * held - stake_amount,
        held >= 1 ==> stake_amount * held >= stake_amount,
{
    assert(stake_amount * (held + 1) == stake_amount * held + stake_amount) by (nonlinear_arith);
    assert(held >= 1 ==> stake_amount * (held - 1) == stake_amount * held - stake_amount)
        by (nonlinear_arith);
}

/// The tables of a ledger without kitties agree.
pub proof fn genesis_is_consistent(stake_amount: Balance)
    ensures
        State::genesis(stake_amount).consistent(),
{
}

/// Paying into a free balance, where the payment fits, keeps the tables in
/// agreement.
pub proof fn deposit_is_consistent(s: State, who: AccountId, amount: Balance)
    requires
        s.consistent(),
        s.deposit_fits(who, amount),
    ensures
        s.after_deposit(who, amount).consistent(),
{
}

/// Entering a new kitty for an account that can take one keeps the tables in
/// agreement.
pub proof fn born_is_consistent(s: State, who: AccountId, kitty: Kitty, event: Event)
    requires
        s.consistent(),
        s.create_error(who) is None,
    ensures
        s.born(who, kitty, event).consistent(),
{
    lemma_push_fresh(s.user_kitties[who], s.next_kitty_id);
    lemma_one_more_stake(s.stake_amount, s.user_kitties[who].len());
}

/// Handing a kitty on, where that is not refused, keeps the tables in
/// agreement.
pub proof fn transfer_is_consistent(s: State, who: AccountId, kitty_id: KittyIndex, to: AccountId)
    requires
        s.consistent(),
        s.transfer_error(who, kitty_id, to) is None,
    ensures
        s.after_transfer(who, kitty_id, to).consistent(),
{
    let rest = without(s.user_kitties[who], kitty_id);
    lemma_without(s.user_kitties[who], kitty_id);
    lemma_one_more_stake(s.stake_amount, s.user_kitties[to].len());
    lemma_one_more_stake(s.stake_amount, rest.len());
    if who != to {
        lemma_push_fresh(s.user_kitties[to], kitty_id);
    } else {
        lemma_push_fresh(rest, kitty_id);
    }
}

/// A newborn kitty, created or bred, gets a number above every number given
/// out before. It belongs to the account it was born for and stands last in
/// that account's list; the account has reserved exactly one stake more, out
/// of its free balance; nothing else has changed for any other kitty or
/// account.
pub proof fn birth_allocates_fresh_id(s: State, who: AccountId, kitty: Kitty, event: Event)
    requires
        s.consistent(),
        s.create_result(who) is Ok,
    ensures
        s.create_result(who) matches Ok(kitty_id) && kitty_id == s.next_kitty_id,
        forall|other: KittyIndex| s.kitties.contains_key(other) ==> other < s.next_kitty_id,
        s.born(who, kitty, event).next_kitty_id == s.next_kitty_id + 1,
        s.born(who, kitty, event).kitties[s.next_kitty_id] == kitty,
        s.born(who, kitty, event).kitty_owner[s.next_kitty_id] == who,
        s.born(who, kitty, event).user_kitties[who] == s.user_kitties[who].push(s.next_kitty_id),
        s.born(who, kitty, event).balances[who].reserved == s.balances[who].reserved
            + s.stake_amount,
        s.born(who, kitty, event).balances[who].free == s.balances[who].free - s.stake_amount,
        forall|other: KittyIndex|
            s.kitties.contains_key(other) ==> s.born(who, kitty, event).kitties[other]
                == s.kitties[other] && s.born(who, kitty, event).kitty_owner[other]
                == s.kitty_owner[other],
        forall|other: AccountId|
            other != who ==> s.born(who, kitty, event).user_kitties[other] == s.user_kitties[other]
                && s.born(who, kitty, event).balances[other] == s.balances[other],
{
}

/// After a kitty was handed to another account it is gone from the list of
/// the account that gave it and stands exactly once in the list of the
/// account that took it, which now owns it; the giver has one stake less
/// reserved, the taker one stake more. No kitty has changed and no number
/// was given out.
pub proof fn transfer_moves_kitty_and_stake(
    s: State,
    who: AccountId,
    kitty_id: KittyIndex,
    to: AccountId,
)
    requires
        s.consistent(),
        s.transfer_result(who, kitty_id, to) is Ok,
        who != to,
    ensures
        !s.after_transfer(who, kitty_id, to).user_kitties[who].contains(kitty_id),
        s.after_transfer(who, kitty_id, to).user_kitties[to].contains(kitty_id),
        forall|i: int, j: int|
            #![trigger
                s.after_transfer(who, kitty_id, to).user_kitties[to][i],
                s.after_transfer(who, kitty_id, to).user_kitties[to][j]
            ]
            0 <= i < s.after_transfer(who, kitty_id, to).user_kitties[to].len() && 0 <= j
                < s.after_transfer(who, kitty_id, to).user_kitties[to].len() && s.after_transfer(
                who,
                kitty_id,
                to,
            ).user_kitties[to][i] == kitty_id && s.after_transfer(
                who,
                kitty_id,
                to,
            ).user_kitties[to][j] == kitty_id ==> i == j,
        s.after_transfer(who, kitty_id, to).kitty_owner[kitty_id] == to,
        s.after_transfer(who, kitty_id, to).kitties == s.kitties,
        s.after_transfer(who, kitty_id, to).next_kitty_id == s.next_kitty_id,
        s.after_transfer(who, kitty_id, to).balances[who].reserved == s.balances[who].reserved
            - s.stake_amount,
        s.after_transfer(who, kitty_id, to).balances[who].free == s.balances[who].free
            + s.stake_amount,
        s.after_transfer(who, kitty_id, to).balances[to].reserved == s.balances[to].reserved
            + s.stake_amount,
        s.after_transfer(who, kitty_id, to).balances[to].free == s.balances[to].free
            - s.stake_amount,
{
    let t = s.after_transfer(who, kitty_id, to);
    transfer_is_consistent(s, who, kitty_id, to);
    assert(t.kitty_owner.contains_key(kitty_id));
    lemma_one_more_stake(s.stake_amount, s.user_kitties[who].len());
}

/// Handing a kitty to another account cannot be repeated: the same dispatch,
/// made again, is refused because the caller no longer owns the kitty.
pub proof fn second_transfer_is_refused(
    s: State,
    who: AccountId,
    kitty_id: KittyIndex,
    to: AccountId,
)
    requires
        s.consistent(),
        s.transfer_result(who, kitty_id, to) is Ok,
        who != to,
    ensures
        s.after_transfer(who, kitty_id, to).transfer_result(who, kitty_id, to) matches Err(
            Error::NotOwner,
        ),
{
}

/// A kitty cannot be bred with itself, whether or not there is such a kitty
/// and whoever asks.
pub proof fn breeding_with_itself_is_refused(s: State, who: AccountId, kitty_id: KittyIndex)
    ensures
        s.breed_result(who, kitty_id, kitty_id) matches Err(Error::SameKittyId),
{
}

/// While numbers are left, an account that holds as many kitties as one
/// account may is refused another, whatever its balance.
pub proof fn full_owner_is_refused(s: State, who: AccountId)
    requires
        s.consistent(),
        s.next_kitty_id < u32::MAX,
        s.user_kitties[who].len() == MAX_OWNER_KITTY,
    ensures
        s.create_result(who) matches Err(Error::OverflowMaxOwnerKitty),
{
}

} // verus!
