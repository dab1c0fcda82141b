//! The ledger as a mathematical value, and each dispatch as a function on it.

use vstd::prelude::*;
use crate::balances::{deposited, no_balances, solvent, Accounts, Balance};
use crate::dna::{crossover, AccountId, Kitty, KittyDna};
use crate::error::{Error, Event};
use crate::inventory::{without, KittyIndex, MAX_OWNER_KITTY};
use crate::stake::restaked;

verus! {

/// The event that reports the birth of `kitty` under `kitty_id` for `who`.
pub open spec fn birth(who: AccountId, kitty_id: KittyIndex, kitty: Kitty, bred: bool) -> Event {
    if bred {
        Event::Bred { who, kitty_id, kitty }
    } else {
        Event::Created { who, kitty_id, kitty }
    }
}

/// Everything the ledger records.
pub struct State {
    /// The stake that backs each kitty.
    pub stake_amount: Balance,
    /// The number that the next kitty will get.
    pub next_kitty_id: KittyIndex,
    /// Each kitty by its number.
    pub kitties: Map<KittyIndex, Kitty>,
    /// The owner of each kitty.
    pub kitty_owner: Map<KittyIndex, AccountId>,
    /// For every account the kitties it holds, in the order of its list.
    pub user_kitties: Map<AccountId, Seq<KittyIndex>>,
    /// For every account what it holds in currency.
    pub balances: Accounts,
    /// The events reported so far, oldest first.
    pub events: Seq<Event>,
}

impl State {
    /// A ledger without kitties, balances or events.
    pub open spec fn genesis(stake_amount: Balance) -> State {
        State {
            stake_amount,
            next_kitty_id: 0,
            kitties: Map::empty(),
            kitty_owner: Map::empty(),
            user_kitties: Map::total(|who: AccountId| Seq::<KittyIndex>::empty()),
            balances: no_balances(),
            events: Seq::empty(),
        }
    }

    /// The tables agree with one another:
    /// the kitties are those numbered below `next_kitty_id`, and each has an
    /// owner; a kitty stands in the list of its owner, once, and in no other;
    /// no list is longer than `MAX_OWNER_KITTY`; each account has reserved
    /// exactly one stake for each kitty it holds.
    pub open spec fn consistent(self) -> bool {
        &&& forall|id: KittyIndex| #[trigger]
            self.kitties.contains_key(id) <==> id < self.next_kitty_id
        &&& forall|id: KittyIndex| #[trigger]
            self.kitty_owner.contains_key(id) <==> id < self.next_kitty_id
        &&& forall|id: KittyIndex| #[trigger]
            self.kitty_owner.contains_key(id)
                ==> self.user_kitties[self.kitty_owner[id]].contains(id)
        &&& forall|who: AccountId, id: KittyIndex| #[trigger]
            self.user_kitties[who].contains(id) ==> self.kitty_owner.contains_key(id)
                && self.kitty_owner[id] == who
        &&& forall|who: AccountId| #[trigger] self.user_kitties.contains_key(who)
        &&& forall|who: AccountId|
            #![trigger self.user_kitties[who]]
            {
                &&& self.user_kitties[who].no_duplicates()
                &&& self.user_kitties[who].len() <= MAX_OWNER_KITTY
                &&& self.balances[who].reserved == self.stake_amount * self.user_kitties[who].len()
            }
        &&& solvent(self.balances)
    }

    /// `deposit` pays unless the account's holdings would overflow.
    pub open spec fn deposit_fits(self, who: AccountId, amount: Balance) -> bool {
        self.balances[who].free + self.balances[who].reserved + amount <= u128::MAX
    }

    /// The ledger after `amount` was paid into the free balance of `who`.
    pub open spec fn after_deposit(self, who: AccountId, amount: Balance) -> State {
        State { balances: deposited(self.balances, who, amount), ..self }
    }

    /// Why `who` cannot be given a new kitty, if it cannot.
    pub open spec fn create_error(self, who: AccountId) -> Option<Error> {
        if self.next_kitty_id == u32::MAX {
            Some(Error::KittyIdOverflow)
        } else if self.user_kitties[who].len() >= MAX_OWNER_KITTY {
            Some(Error::OverflowMaxOwnerKitty)
        } else if self.balances[who].free < self.stake_amount {
            Some(Error::InsufficientStakeAmount)
        } else {
            None
        }
    }

    /// What giving `who` a new kitty returns: the kitty's number, or the
    /// refusal.
    pub open spec fn create_result(self, who: AccountId) -> Result<KittyIndex, Error> {
        match self.create_error(who) {
            Some(error) => Err(error),
            None => Ok(self.next_kitty_id),
        }
    }

    /// The ledger after `kitty` was entered for `who` under the next number,
    /// `who` reserved the stake for it, and `event` was reported.
    pub open spec fn born(self, who: AccountId, kitty: Kitty, event: Event) -> State {
        State {
            next_kitty_id: (self.next_kitty_id + 1) as KittyIndex,
            kitties: self.kitties.insert(self.next_kitty_id, kitty),
            kitty_owner: self.kitty_owner.insert(self.next_kitty_id, who),
            user_kitties: self.user_kitties.insert(
                who,
                self.user_kitties[who].push(self.next_kitty_id),
            ),
            balances: restaked(self.balances, self.stake_amount, None, who),
            events: self.events.push(event),
            ..self
        }
    }

    /// The ledger after `who` created `kitty`.
    pub open spec fn after_create(self, who: AccountId, kitty: Kitty) -> State {
        self.born(who, kitty, birth(who, self.next_kitty_id, kitty, false))
    }

    /// Why `who` cannot breed the kitties `kitty_id_1` and `kitty_id_2`, if it
    /// cannot.
    pub open spec fn breed_error(
        self,
        who: AccountId,
        kitty_id_1: KittyIndex,
        kitty_id_2: KittyIndex,
    ) -> Option<Error> {
        if kitty_id_1 == kitty_id_2 {
            Some(Error::SameKittyId)
        } else if !self.kitties.contains_key(kitty_id_1)
            || !self.kitties.contains_key(kitty_id_2) {
            Some(Error::InvalidKittyId)
        } else {
            self.create_error(who)
        }
    }

    /// What breeding returns: the child's number, or the refusal.
    pub open spec fn breed_result(
        self,
        who: AccountId,
        kitty_id_1: KittyIndex,
        kitty_id_2: KittyIndex,
    ) -> Result<KittyIndex, Error> {
        match self.breed_error(who, kitty_id_1, kitty_id_2) {
            Some(error) => Err(error),
            None => Ok(self.next_kitty_id),
        }
    }

    /// The child of the kitties `kitty_id_1` and `kitty_id_2` under `mask`.
    pub open spec fn child(
        self,
        kitty_id_1: KittyIndex,
        kitty_id_2: KittyIndex,
        mask: KittyDna,
    ) -> Kitty {
        Kitty::with_dna(crossover(self.kitties[kitty_id_1].0, self.kitties[kitty_id_2].0, mask))
    }

    /// The ledger after `who` bred the kitties `kitty_id_1` and `kitty_id_2`
    /// under `mask`.
    pub open spec fn after_breed(
        self,
        who: AccountId,
        kitty_id_1: KittyIndex,
        kitty_id_2: KittyIndex,
        mask: KittyDna,
    ) -> State {
        let kitty = self.child(kitty_id_1, kitty_id_2, mask);
        self.born(who, kitty, birth(who, self.next_kitty_id, kitty, true))
    }

    /// Why `who` cannot hand the kitty `kitty_id` to `to`, if it cannot.
    pub open spec fn transfer_error(
        self,
        who: AccountId,
        kitty_id: KittyIndex,
        to: AccountId,
    ) -> Option<Error> {
        if !self.kitties.contains_key(kitty_id) {
            Some(Error::InvalidKittyId)
        } else if !self.kitty_owner.contains_key(kitty_id) || self.kitty_owner[kitty_id] != who {
            Some(Error::NotOwner)
        } else if who != to && self.user_kitties[to].len() >= MAX_OWNER_KITTY {
            Some(Error::OverflowMaxOwnerKitty)
        } else if self.balances[to].free < self.stake_amount {
            Some(Error::InsufficientStakeAmount)
        } else {
            None
        }
    }

    /// What handing a kitty on returns: nothing, or the refusal.
    pub open spec fn transfer_result(
        self,
        who: AccountId,
        kitty_id: KittyIndex,
        to: AccountId,
    ) -> Result<(), Error> {
        match self.transfer_error(who, kitty_id, to) {
            Some(error) => Err(error),
            None => Ok(()),
        }
    }

    /// The lists after the kitty `kitty_id` left the list of `who`, its last
    /// entry moving into the gap, and was appended to the list of `to`.
    pub open spec fn moved(
        self,
        who: AccountId,
        kitty_id: KittyIndex,
        to: AccountId,
    ) -> Map<AccountId, Seq<KittyIndex>> {
        let taken = self.user_kitties.insert(who, without(self.user_kitties[who], kitty_id));
        taken.insert(to, taken[to].push(kitty_id))
    }

    /// The ledger after `who` handed the kitty `kitty_id` to `to`.
    pub open spec fn after_transfer(
        self,
        who: AccountId,
        kitty_id: KittyIndex,
        to: AccountId,
    ) -> State {
        State {
            kitty_owner: self.kitty_owner.insert(kitty_id, to),
            user_kitties: self.moved(who, kitty_id, to),
            balances: restaked(self.balances, self.stake_amount, Some(who), to),
            events: self.events.push(Event::Transferred { from: who, to, kitty_id }),
            ..self
        }
    }
}

} // verus!
