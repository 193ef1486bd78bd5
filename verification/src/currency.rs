use vstd::prelude::*;
use std::collections::HashMap;
use crate::types::{AccountId, Balance, CurrencyError};

verus! {

broadcast use vstd::std_specs::hash::group_hash_axioms;

/// What an account holds: a balance it can spend, and a balance set aside.
#[derive(Clone, Copy, Debug, PartialEq, Eq, Structural)]
pub struct AccountData {
    pub free: Balance,
    pub reserved: Balance,
}

impl AccountData {
    /// The two balances together fit a `Balance`.
    pub open spec fn wf(self) -> bool {
        self.free + self.reserved <= u64::MAX
    }

    /// An account that holds nothing.
    pub open spec fn empty() -> AccountData {
        AccountData { free: 0, reserved: 0 }
    }

    /// The account once `amount` has moved from free to reserved.
    pub open spec fn reserved_by(self, amount: Balance) -> AccountData {
        AccountData { free: (self.free - amount) as u64, reserved: (self.reserved + amount) as u64 }
    }

    /// How much of `amount` can be released: no more than is reserved.
    pub open spec fn releasable(self, amount: Balance) -> Balance {
        if self.reserved < amount {
            self.reserved
        } else {
            amount
        }
    }

    /// The account once up to `amount` has moved from reserved back to free.
    pub open spec fn unreserved_by(self, amount: Balance) -> AccountData {
        AccountData {
            free: (self.free + self.releasable(amount)) as u64,
            reserved: (self.reserved - self.releasable(amount)) as u64,
        }
    }

    /// The account once it has paid `amount` from its free balance.
    pub open spec fn debited(self, amount: Balance) -> AccountData {
        AccountData { free: (self.free - amount) as u64, reserved: self.reserved }
    }

    /// The account once `amount` has been added to its free balance.
    pub open spec fn credited(self, amount: Balance) -> AccountData {
        AccountData { free: (self.free + amount) as u64, reserved: self.reserved }
    }

    /// Moves `amount` from free to reserved, where the free balance covers it.
    pub fn reserve(self, amount: Balance) -> (r: Option<AccountData>)
        requires
            self.wf(),
        ensures
            r == if self.free >= amount {
                Some(self.reserved_by(amount))
            } else {
                None
            },
            r is Some ==> r->0.wf(),
    {
        if self.free >= amount {
            Some(AccountData { free: self.free - amount, reserved: self.reserved + amount })
        } else {
            None
        }
    }

    /// Moves up to `amount` from reserved back to free.
    pub fn unreserve(self, amount: Balance) -> (r: AccountData)
        requires
            self.wf(),
        ensures
            r == self.unreserved_by(amount),
            r.wf(),
    {
        let actual: u64 = if self.reserved < amount {
            self.reserved
        } else {
            amount
        };
        AccountData { free: self.free + actual, reserved: self.reserved - actual }
    }
}

/// What a payment of `amount` between two different accounts comes to: the
/// payer must cover it, the payee's balances must still fit and come to at
/// least `minimum`, and the payer must keep at least `minimum` free.
pub open spec fn payment(from: AccountData, to: AccountData, amount: Balance, minimum: Balance) -> Result<
    (AccountData, AccountData),
    CurrencyError,
> {
    if from.free < amount {
        Err(CurrencyError::InsufficientBalance)
    } else if to.free + to.reserved + amount > u64::MAX {
        Err(CurrencyError::Overflow)
    } else if to.free + to.reserved + amount < minimum {
        Err(CurrencyError::ExistentialDeposit)
    } else if from.free - amount < minimum {
        Err(CurrencyError::KeepAlive)
    } else {
        Ok((from.debited(amount), to.credited(amount)))
    }
}

/// Pays `amount` from one account to another, keeping both alive.
pub fn pay(from: AccountData, to: AccountData, amount: Balance, minimum: Balance) -> (r: Result<
    (AccountData, AccountData),
    CurrencyError,
>)
    requires
        from.wf(),
        to.wf(),
    ensures
        r == payment(from, to, amount, minimum),
        r is Ok ==> r->Ok_0.0.wf() && r->Ok_0.1.wf(),
{
    if from.free < amount {
        Err(CurrencyError::InsufficientBalance)
    } else if amount > u64::MAX - to.free - to.reserved {
        Err(CurrencyError::Overflow)
    } else if to.free + to.reserved + amount < minimum {
        Err(CurrencyError::ExistentialDeposit)
    } else if from.free - amount < minimum {
        Err(CurrencyError::KeepAlive)
    } else {
        Ok(
            (
                AccountData { free: from.free - amount, reserved: from.reserved },
                AccountData { free: to.free + amount, reserved: to.reserved },
            ),
        )
    }
}

/// What `who` holds in a map of accounts: nothing, where the map has no
/// entry for it.
pub open spec fn account_in(accounts: Map<AccountId, AccountData>, who: AccountId) -> AccountData {
    if accounts.contains_key(who) {
        accounts[who]
    } else {
        AccountData::empty()
    }
}

/// The balances of all accounts. An account that was never written holds
/// nothing.
pub struct Balances {
    pub accounts: HashMap<AccountId, AccountData>,
    /// The least balance of a live account: what a payment must leave its
    /// payer free, and its payee in all.
    pub existential_deposit: Balance,
}

impl View for Balances {
    type V = Map<AccountId, AccountData>;

    open spec fn view(&self) -> Map<AccountId, AccountData> {
        self.accounts@
    }
}

impl Balances {
    /// Every account's two balances together fit a `Balance`.
    pub open spec fn wf(&self) -> bool {
        forall|who: AccountId| #[trigger] self@.contains_key(who) ==> self@[who].wf()
    }

    /// What `who` holds.
    pub open spec fn account(&self, who: AccountId) -> AccountData {
        account_in(self@, who)
    }

    /// Balances in which no account holds anything.
    pub fn new(existential_deposit: Balance) -> (r: Self)
        ensures
            r.wf(),
            r@ == Map::<AccountId, AccountData>::empty(),
            r.existential_deposit == existential_deposit,
    {
        Balances { accounts: HashMap::new(), existential_deposit }
    }

    /// What `who` holds.
    pub fn account_data(&self, who: AccountId) -> (r: AccountData)
        requires
            self.wf(),
        ensures
            r == self.account(who),
            r.wf(),
    {
        match self.accounts.get(&who) {
            Some(data) => {
                assert(self@.contains_key(who) && self@[who] == *data);
                *data
            },
            None => AccountData { free: 0, reserved: 0 },
        }
    }

    /// What `who` can spend.
    pub fn free_balance(&self, who: AccountId) -> (r: Balance)
        requires
            self.wf(),
        ensures
            r == self.account(who).free,
    {
        self.account_data(who).free
    }

    /// What is set aside for `who`.
    pub fn reserved_balance(&self, who: AccountId) -> (r: Balance)
        requires
            self.wf(),
        ensures
            r == self.account(who).reserved,
    {
        self.account_data(who).reserved
    }

    /// Writes what `who` holds.
    pub fn set_account(&mut self, who: AccountId, data: AccountData)
        requires
            old(self).wf(),
            data.wf(),
        ensures
            final(self).wf(),
            final(self)@ == old(self)@.insert(who, data),
            final(self).existential_deposit == old(self).existential_deposit,
    {
        self.accounts.insert(who, data);
        assert forall|a: AccountId| #[trigger] self@.contains_key(a) implies self@[a].wf() by {
            if a != who {
                assert(old(self)@.contains_key(a));
            }
        }
    }

    /// Adds `amount` to what `who` can spend. Fails, changing nothing,
    /// exactly where the account's balances would no longer fit.
    pub fn deposit(&mut self, who: AccountId, amount: Balance) -> (r: Result<(), CurrencyError>)
        requires
            old(self).wf(),
        ensures
            final(self).wf(),
            final(self).existential_deposit == old(self).existential_deposit,
            old(self).account(who).free + old(self).account(who).reserved + amount <= u64::MAX ==> r == Ok::<
                (),
                CurrencyError,
            >(()) && final(self)@ == old(self)@.insert(who, old(self).account(who).credited(amount)),
            old(self).account(who).free + old(self).account(who).reserved + amount > u64::MAX ==> r == Err::<
                (),
                CurrencyError,
            >(CurrencyError::Overflow) && *final(self) == *old(self),
    {
        let data = self.account_data(who);
        if amount > u64::MAX - data.free - data.reserved {
            Err(CurrencyError::Overflow)
        } else {
            self.set_account(who, AccountData { free: data.free + amount, reserved: data.reserved });
            Ok(())
        }
    }

    /// Reserves `amount` from what `who` can spend. Fails, changing nothing,
    /// exactly where the free balance is below the amount.
    pub fn reserve(&mut self, who: AccountId, amount: Balance) -> (r: Result<(), CurrencyError>)
        requires
            old(self).wf(),
        ensures
            final(self).wf(),
            old(self).account(who).free >= amount ==> r == Ok::<(), CurrencyError>(()) && final(self)@
                == old(self)@.insert(who, old(self).account(who).reserved_by(amount)),
            old(self).account(who).free < amount ==> r == Err::<(), CurrencyError>(
                CurrencyError::InsufficientBalance,
            ) && *final(self) == *old(self),
            final(self).existential_deposit == old(self).existential_deposit,
    {
        match self.account_data(who).reserve(amount) {
            Some(data) => {
                self.set_account(who, data);
                Ok(())
            },
            None => Err(CurrencyError::InsufficientBalance),
        }
    }

    /// Releases up to `amount` of what is reserved for `who`, and returns the
    /// part of `amount` that was not there to release.
    pub fn unreserve(&mut self, who: AccountId, amount: Balance) -> (rest: Balance)
        requires
            old(self).wf(),
        ensures
            final(self).wf(),
            final(self)@ == old(self)@.insert(who, old(self).account(who).unreserved_by(amount)),
            rest == amount - old(self).account(who).releasable(amount),
            final(self).existential_deposit == old(self).existential_deposit,
    {
        let before = self.account_data(who);
        let after = before.unreserve(amount);
        self.set_account(who, after);
        amount - (before.reserved - after.reserved)
    }
}

} // verus!
