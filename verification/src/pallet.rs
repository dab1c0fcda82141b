//! The ledger itself, and the dispatches that change it.

use vstd::prelude::*;
use std::collections::HashMap;
use crate::balances::{Balance, Balances};
use crate::dna::{combine, gen_dna, gen_dna_spec, AccountId, Entropy, Kitty, KittyDna};
use crate::error::{Error, Event};
use crate::inventory::{
    count, empty, ids, lemma_without, owned_ids, take_out, try_add, KittyIndex, OwnedKitties,
    MAX_OWNER_KITTY,
};
use crate::laws::{
    born_is_consistent, deposit_is_consistent, genesis_is_consistent, transfer_is_consistent,
};
use crate::stake::on_ownership_change;
use crate::state::{birth, State};

verus! {

broadcast use vstd::std_specs::hash::group_hash_axioms;

/// The ledger: the kitties, who owns which, what each account has staked,
/// and the events reported so far.
pub struct Pallet {
    stake_amount: Balance,
    next_kitty_id: KittyIndex,
    kitties: HashMap<KittyIndex, Kitty>,
    kitty_owner: HashMap<KittyIndex, AccountId>,
    user_kitties: HashMap<AccountId, OwnedKitties>,
    balances: Balances,
    events: Vec<Event>,
}

impl View for Pallet {
    type V = State;

    closed spec fn view(&self) -> State {
        State {
            stake_amount: self.stake_amount,
            next_kitty_id: self.next_kitty_id,
            kitties: self.kitties@,
            kitty_owner: self.kitty_owner@,
            user_kitties: Map::total(
                |who: AccountId|
                    if self.user_kitties@.contains_key(who) {
                        owned_ids(self.user_kitties@[who])
                    } else {
                        Seq::empty()
                    },
            ),
            balances: self.balances@,
            events: self.events@,
        }
    }
}

impl Pallet {
    /// What every dispatch keeps: the tables agree with one another.
    pub open spec fn wf(&self) -> bool {
        self@.consistent()
    }

    /// A ledger without kitties, balances or events, in which each kitty will
    /// be backed by `stake_amount`.
    pub fn new(stake_amount: Balance) -> (pallet: Pallet)
        ensures
            pallet.wf(),
            pallet@ == State::genesis(stake_amount),
    {
        let pallet = Pallet {
            stake_amount,
            next_kitty_id: 0,
            kitties: HashMap::new(),
            kitty_owner: HashMap::new(),
            user_kitties: HashMap::new(),
            balances: Balances::new(),
            events: Vec::new(),
        };
        proof {
            assert(pallet@.user_kitties =~= State::genesis(stake_amount).user_kitties);
            genesis_is_consistent(stake_amount);
        }
        pallet
    }

    /// The stake that backs each kitty.
    pub fn stake_amount(&self) -> (amount: Balance)
        ensures
            amount == self@.stake_amount,
    {
        self.stake_amount
    }

    /// The number that the next kitty will get.
    pub fn next_kitty_id(&self) -> (next: KittyIndex)
        ensures
            next == self@.next_kitty_id,
    {
        self.next_kitty_id
    }

    /// The kitty numbered `kitty_id`, if there is one.
    pub fn kitties(&self, kitty_id: KittyIndex) -> (kitty: Option<Kitty>)
        ensures
            kitty == (if self@.kitties.contains_key(kitty_id) {
                Some(self@.kitties[kitty_id])
            } else {
                None
            }),
    {
        match self.kitties.get(&kitty_id) {
            Some(kitty) => Some(*kitty),
            None => None,
        }
    }

    /// The owner of the kitty numbered `kitty_id`, if there is such a kitty.
    pub fn kitty_owner(&self, kitty_id: KittyIndex) -> (owner: Option<AccountId>)
        ensures
            owner == (if self@.kitty_owner.contains_key(kitty_id) {
                Some(self@.kitty_owner[kitty_id])
            } else {
                None
            }),
    {
        match self.kitty_owner.get(&kitty_id) {
            Some(owner) => Some(*owner),
            None => None,
        }
    }

    /// The kitties that `who` holds, in the order of its list.
    pub fn user_kitties(&self, who: AccountId) -> (held: Vec<KittyIndex>)
        ensures
            held@ == self@.user_kitties[who],
    {
        match self.user_kitties.get(&who) {
            Some(list) => ids(list),
            None => Vec::new(),
        }
    }

    /// The free balance of `who`.
    pub fn free_balance(&self, who: AccountId) -> (free: Balance)
        ensures
            free == self@.balances[who].free,
    {
        self.balances.free_balance(who)
    }

    /// What `who` has reserved as stake.
    pub fn reserved_balance(&self, who: AccountId) -> (reserved: Balance)
        ensures
            reserved == self@.balances[who].reserved,
    {
        self.balances.reserved_balance(who)
    }

    /// The events reported so far, oldest first.
    pub fn events(&self) -> (events: &Vec<Event>)
        ensures
            events@ == self@.events,
    {
        &self.events
    }

    /// Pays `amount` into the free balance of `who`, unless the account's
    /// holdings would no longer fit a `Balance`; says whether it paid.
    pub fn deposit(&mut self, who: AccountId, amount: Balance) -> (paid: bool)
        requires
            old(self).wf(),
        ensures
            final(self).wf(),
            paid == old(self)@.deposit_fits(who, amount),
            final(self)@ == (if paid {
                old(self)@.after_deposit(who, amount)
            } else {
                old(self)@
            }),
    {
        let paid = self.balances.deposit(who, amount);
        proof {
            if paid {
                deposit_is_consistent(old(self)@, who, amount);
            }
        }
        paid
    }

    /// The number for the next kitty, unless all numbers are used up. Asking
    /// uses up no number.
    pub fn get_next_id(&self) -> (next: Result<KittyIndex, Error>)
        ensures
            next == next_id_spec(self@.next_kitty_id),
    {
        next_id(self.next_kitty_id)
    }

    /// The kitty numbered `kitty_id`, or the error for a number without one.
    pub fn get_kitty(&self, kitty_id: KittyIndex) -> (kitty: Result<Kitty, Error>)
        ensures
            kitty == (if self@.kitties.contains_key(kitty_id) {
                Ok(self@.kitties[kitty_id])
            } else {
                Err(Error::InvalidKittyId)
            }),
    {
        match self.kitties.get(&kitty_id) {
            Some(kitty) => Ok(*kitty),
            None => Err(Error::InvalidKittyId),
        }
    }

    /// How many kitties `who` holds.
    fn held(&self, who: AccountId) -> (held: usize)
        ensures
            held == self@.user_kitties[who].len(),
    {
        match self.user_kitties.get(&who) {
            Some(list) => count(list),
            None => 0,
        }
    }

    /// Enters `kitty` for `who` under the next number and reports its birth,
    /// as bred or as created.
    fn give_birth(
        &mut self,
        who: AccountId,
        kitty: Kitty,
        bred: bool,
    ) -> (born: Result<KittyIndex, Error>)
        requires
            old(self).wf(),
        ensures
            final(self).wf(),
            born == old(self)@.create_result(who),
            final(self)@ == (if born is Ok {
                old(self)@.born(who, kitty, birth(who, old(self)@.next_kitty_id, kitty, bred))
            } else {
                old(self)@
            }),
    {
        let kitty_id: KittyIndex = self.get_next_id()?;
        if self.held(who) >= MAX_OWNER_KITTY as usize {
            return Err(Error::OverflowMaxOwnerKitty);
        }
        on_ownership_change(&mut self.balances, self.stake_amount, None, who)?;
        self.kitties.insert(kitty_id, kitty);
        self.kitty_owner.insert(kitty_id, who);
        self.next_kitty_id = kitty_id + 1;
        let mut list = match self.user_kitties.remove(&who) {
            Some(list) => list,
            None => empty(),
        };
        let added = try_add(&mut list, kitty_id);
        assert(added);
        self.user_kitties.insert(who, list);
        let event = if bred {
            Event::Bred { who, kitty_id, kitty }
        } else {
            Event::Created { who, kitty_id, kitty }
        };
        self.events.push(event);
        proof {
            let after = old(self)@.born(who, kitty, event);
            assert(self@.user_kitties =~= after.user_kitties);
            born_is_consistent(old(self)@, who, kitty, event);
        }
        Ok(kitty_id)
    }

    /// Creates `kitty` for `who`: enters it under the next number, reserves
    /// the stake from `who`, and reports `Created`. Refused, with the ledger
    /// unchanged, when all numbers are used up, else when `who` holds as many
    /// kitties as one account may, else when its free balance does not cover
    /// the stake.
    pub fn create_with(
        &mut self,
        who: AccountId,
        kitty: Kitty,
    ) -> (created: Result<KittyIndex, Error>)
        requires
            old(self).wf(),
        ensures
            final(self).wf(),
            created == old(self)@.create_result(who),
            final(self)@ == (if created is Ok {
                old(self)@.after_create(who, kitty)
            } else {
                old(self)@
            }),
            old(self)@.next_kitty_id < u32::MAX && old(self)@.user_kitties[who].len()
                == MAX_OWNER_KITTY ==> (created matches Err(Error::OverflowMaxOwnerKitty))
                && final(self)@.next_kitty_id == old(self)@.next_kitty_id,
    {
        self.give_birth(who, kitty, false)
    }

    /// Creates a kitty for `who` with attributes drawn from `entropy`.
    pub fn create(
        &mut self,
        who: AccountId,
        entropy: &Entropy,
    ) -> (created: Result<KittyIndex, Error>)
        requires
            old(self).wf(),
        ensures
            final(self).wf(),
            created == old(self)@.create_result(who),
            final(self)@ == (if created is Ok {
                old(self)@.after_create(who, Kitty(gen_dna_spec(who, *entropy)))
            } else {
                old(self)@
            }),
            old(self)@.next_kitty_id < u32::MAX && old(self)@.user_kitties[who].len()
                == MAX_OWNER_KITTY ==> (created matches Err(Error::OverflowMaxOwnerKitty))
                && final(self)@.next_kitty_id == old(self)@.next_kitty_id,
    {
        let kitty = Kitty(gen_dna(who, entropy));
        self.create_with(who, kitty)
    }

    /// Breeds the kitties `kitty_id_1` and `kitty_id_2` for `who`: the child
    /// takes each bit from the first parent where `mask` has the bit set and
    /// from the second elsewhere; it is entered for `who` as in `create_with`
    /// and reported as `Bred`. The parents stay with their owners. Refused,
    /// with the ledger unchanged, when the two numbers are the same, else when
    /// one of them names no kitty, else as `create_with` is.
    pub fn breed_with(
        &mut self,
        who: AccountId,
        kitty_id_1: KittyIndex,
        kitty_id_2: KittyIndex,
        mask: &KittyDna,
    ) -> (bred: Result<KittyIndex, Error>)
        requires
            old(self).wf(),
        ensures
            final(self).wf(),
            bred == old(self)@.breed_result(who, kitty_id_1, kitty_id_2),
            kitty_id_1 == kitty_id_2 ==> (bred matches Err(Error::SameKittyId)),
            final(self)@ == (if bred is Ok {
                old(self)@.after_breed(who, kitty_id_1, kitty_id_2, *mask)
            } else {
                old(self)@
            }),
    {
        if kitty_id_1 == kitty_id_2 {
            return Err(Error::SameKittyId);
        }
        let kitty_1 = self.get_kitty(kitty_id_1)?;
        let kitty_2 = self.get_kitty(kitty_id_2)?;
        let kitty = Kitty(combine(&kitty_1.0, &kitty_2.0, mask));
        proof {
            kitty.lemma_with_dna();
        }
        self.give_birth(who, kitty, true)
    }

    /// Breeds two kitties for `who` under a mask drawn from `entropy`.
    pub fn breed(
        &mut self,
        who: AccountId,
        kitty_id_1: KittyIndex,
        kitty_id_2: KittyIndex,
        entropy: &Entropy,
    ) -> (bred: Result<KittyIndex, Error>)
        requires
            old(self).wf(),
        ensures
            final(self).wf(),
            bred == old(self)@.breed_result(who, kitty_id_1, kitty_id_2),
            kitty_id_1 == kitty_id_2 ==> (bred matches Err(Error::SameKittyId)),
            final(self)@ == (if bred is Ok {
                old(self)@.after_breed(who, kitty_id_1, kitty_id_2, gen_dna_spec(who, *entropy))
            } else {
                old(self)@
            }),
    {
        let mask = gen_dna(who, entropy);
        self.breed_with(who, kitty_id_1, kitty_id_2, &mask)
    }

    /// Hands the kitty `kitty_id` from `who` to `to`: it leaves the list of
    /// `who`, the last entry of that list moving into its place, and is
    /// appended to the list of `to`; `to` reserves the stake and `who` gets its
    /// own back; `Transferred` is reported. Refused, with the ledger
    /// unchanged, when there is no such kitty, else when `who` does not own
    /// it, else when `to` is another account that holds as many kitties as
    /// one account may, else when the free balance of `to` does not cover the
    /// stake.
    pub fn transfer(
        &mut self,
        who: AccountId,
        kitty_id: KittyIndex,
        to: AccountId,
    ) -> (moved: Result<(), Error>)
        requires
            old(self).wf(),
        ensures
            final(self).wf(),
            moved == old(self)@.transfer_result(who, kitty_id, to),
            final(self)@ == (if moved is Ok {
                old(self)@.after_transfer(who, kitty_id, to)
            } else {
                old(self)@
            }),
    {
        let _ = self.get_kitty(kitty_id)?;
        match self.kitty_owner(kitty_id) {
            Some(owner) => {
                if owner != who {
                    return Err(Error::NotOwner);
                }
            },
            None => {
                return Err(Error::NotOwner);
            },
        }
        if who != to && self.held(to) >= MAX_OWNER_KITTY as usize {
            return Err(Error::OverflowMaxOwnerKitty);
        }
        on_ownership_change(&mut self.balances, self.stake_amount, Some(who), to)?;
        let mut from_list = match self.user_kitties.remove(&who) {
            Some(list) => list,
            None => empty(),
        };
        proof {
            lemma_without(old(self)@.user_kitties[who], kitty_id);
        }
        let taken = take_out(&mut from_list, kitty_id);
        assert(taken);
        self.user_kitties.insert(who, from_list);
        let mut to_list = match self.user_kitties.remove(&to) {
            Some(list) => list,
            None => empty(),
        };
        let added = try_add(&mut to_list, kitty_id);
        assert(added);
        self.user_kitties.insert(to, to_list);
        self.kitty_owner.insert(kitty_id, to);
        self.events.push(Event::Transferred { from: who, to, kitty_id });
        proof {
            let after = old(self)@.after_transfer(who, kitty_id, to);
            assert(self@.user_kitties =~= after.user_kitties);
            transfer_is_consistent(old(self)@, who, kitty_id, to);
        }
        Ok(())
    }
}

/// What a counter that stands at `counter` gives out: `counter` itself, or
/// the refusal once it has reached the largest number.
pub open spec fn next_id_spec(counter: KittyIndex) -> Result<KittyIndex, Error> {
    if counter < u32::MAX {
        Ok(counter)
    } else {
        Err(Error::KittyIdOverflow)
    }
}

/// The number that a counter standing at `counter` gives out. The counter
/// never wraps: at the largest number it gives out nothing more.
pub fn next_id(counter: KittyIndex) -> (next: Result<KittyIndex, Error>)
    ensures
        next == next_id_spec(counter),
{
    if counter < u32::MAX {
        Ok(counter)
    } else {
        Err(Error::KittyIdOverflow)
    }
}

} // verus!
