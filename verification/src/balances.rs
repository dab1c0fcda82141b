//! The balance service that stakes are reserved with: for each account a free
//! and a reserved amount, and moves between the two.

use vstd::prelude::*;
use std::collections::HashMap;
use crate::dna::AccountId;

verus! {

broadcast use vstd::std_specs::hash::group_hash_axioms;

/// An amount of currency.
pub type Balance = u128;

/// What one account holds.
#[derive(Clone, Copy, Debug, PartialEq, Eq)]
pub struct AccountData {
    /// What the account may spend or reserve.
    pub free: Balance,
    /// What is locked as stake.
    pub reserved: Balance,
}

/// Balances of all accounts as a total map: an account never heard of holds
/// nothing.
pub type Accounts = Map<AccountId, AccountData>;

/// The balances before anything was paid in: no account holds anything.
pub open spec fn no_balances() -> Accounts {
    Map::total(|who: AccountId| AccountData { free: 0, reserved: 0 })
}

/// Every account is listed, and what it holds in all fits a `Balance`.
pub open spec fn solvent(accounts: Accounts) -> bool {
    &&& forall|who: AccountId| #[trigger] accounts.contains_key(who)
    &&& forall|who: AccountId|
        #![trigger accounts[who]]
        accounts[who].free + accounts[who].reserved <= u128::MAX
}

/// `accounts` after `who` was paid `amount` into its free balance.
pub open spec fn deposited(accounts: Accounts, who: AccountId, amount: Balance) -> Accounts
    recommends
        accounts[who].free + accounts[who].reserved + amount <= u128::MAX,
{
    accounts.insert(
        who,
        AccountData {
            free: (accounts[who].free + amount) as Balance,
            reserved: accounts[who].reserved,
        },
    )
}

/// `accounts` after `who` moved `amount` from its free to its reserved
/// balance.
pub open spec fn reserved(accounts: Accounts, who: AccountId, amount: Balance) -> Accounts
    recommends
        amount <= accounts[who].free,
        accounts[who].free + accounts[who].reserved <= u128::MAX,
{
    accounts.insert(
        who,
        AccountData {
            free: (accounts[who].free - amount) as Balance,
            reserved: (accounts[who].reserved + amount) as Balance,
        },
    )
}

/// How much of `amount` the reserved balance of `who` can give back.
pub open spec fn releasable(accounts: Accounts, who: AccountId, amount: Balance) -> Balance {
    if amount <= accounts[who].reserved {
        amount
    } else {
        accounts[who].reserved
    }
}

/// `accounts` after `who` got back up to `amount` of its reserved balance.
pub open spec fn unreserved(accounts: Accounts, who: AccountId, amount: Balance) -> Accounts
    recommends
        accounts[who].free + accounts[who].reserved <= u128::MAX,
{
    let moved = releasable(accounts, who, amount);
    accounts.insert(
        who,
        AccountData {
            free: (accounts[who].free + moved) as Balance,
            reserved: (accounts[who].reserved - moved) as Balance,
        },
    )
}

/// The balances of all accounts.
pub struct Balances {
    accounts: HashMap<AccountId, AccountData>,
}

impl View for Balances {
    type V = Accounts;

    closed spec fn view(&self) -> Accounts {
        Map::total(
            |who: AccountId|
                if self.accounts@.contains_key(who) {
                    self.accounts@[who]
                } else {
                    AccountData { free: 0, reserved: 0 }
                },
        )
    }
}

impl Balances {
    /// What every operation keeps: the balances are `solvent`.
    pub open spec fn wf(&self) -> bool {
        solvent(self@)
    }

    /// No account holds anything.
    pub fn new() -> (balances: Balances)
        ensures
            balances.wf(),
            balances@ == no_balances(),
    {
        let balances = Balances { accounts: HashMap::new() };
        assert(balances@ =~= no_balances());
        balances
    }

    /// What `who` holds.
    pub fn account(&self, who: AccountId) -> (data: AccountData)
        ensures
            data == self@[who],
    {
        match self.accounts.get(&who) {
            Some(data) => *data,
            None => AccountData { free: 0, reserved: 0 },
        }
    }

    /// The free balance of `who`.
    pub fn free_balance(&self, who: AccountId) -> (free: Balance)
        ensures
            free == self@[who].free,
    {
        self.account(who).free
    }

    /// The reserved balance of `who`.
    pub fn reserved_balance(&self, who: AccountId) -> (reserved: Balance)
        ensures
            reserved == self@[who].reserved,
    {
        self.account(who).reserved
    }

    /// Pays `amount` into the free balance of `who`, unless the account's
    /// holdings would no longer fit a `Balance`; says whether it paid.
    pub fn deposit(&mut self, who: AccountId, amount: Balance) -> (paid: bool)
        requires
            old(self).wf(),
        ensures
            final(self).wf(),
            paid == (old(self)@[who].free + old(self)@[who].reserved + amount <= u128::MAX),
            paid ==> final(self)@ == deposited(old(self)@, who, amount),
            !paid ==> final(self)@ == old(self)@,
    {
        let data = self.account(who);
        if amount > u128::MAX - data.free - data.reserved {
            return false;
        }
        self.accounts.insert(
            who,
            AccountData { free: data.free + amount, reserved: data.reserved },
        );
        assert(self@ =~= deposited(old(self)@, who, amount));
        true
    }

    /// Moves `amount` from the free to the reserved balance of `who`, if the
    /// free balance covers it; says whether it did.
    pub fn reserve(&mut self, who: AccountId, amount: Balance) -> (done: bool)
        requires
            old(self).wf(),
        ensures
            final(self).wf(),
            done == (amount <= old(self)@[who].free),
            done ==> final(self)@ == reserved(old(self)@, who, amount),
            !done ==> final(self)@ == old(self)@,
    {
        let data = self.account(who);
        if amount > data.free {
            return false;
        }
        self.accounts.insert(
            who,
            AccountData { free: data.free - amount, reserved: data.reserved + amount },
        );
        assert(self@ =~= reserved(old(self)@, who, amount));
        true
    }

    /// Moves up to `amount` from the reserved back to the free balance of
    /// `who`, and returns the part of `amount` that was not there to move.
    pub fn unreserve(&mut self, who: AccountId, amount: Balance) -> (missing: Balance)
        requires
            old(self).wf(),
        ensures
            final(self).wf(),
            missing == amount - releasable(old(self)@, who, amount),
            final(self)@ == unreserved(old(self)@, who, amount),
    {
        let data = self.account(who);
        let moved: Balance = if amount <= data.reserved {
            amount
        } else {
            data.reserved
        };
        self.accounts.insert(
            who,
            AccountData { free: data.free + moved, reserved: data.reserved - moved },
        );
        assert(self@ =~= unreserved(old(self)@, who, amount));
        amount - moved
    }
}

} // verus!
