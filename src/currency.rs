//! The currency ledger: free and reserved balances per account.
//!
//! Reserving moves funds from an account's free balance to its reserved
//! balance; unreserving moves them back. A transfer moves free funds between
//! accounts and keeps the payer alive: what the payer holds afterwards, free
//! and reserved together, stays at or above the existential deposit.
use std::collections::HashMap;
use vstd::prelude::*;

use crate::types::{AccountId, Balance, Error};

verus! {

broadcast use vstd::std_specs::hash::group_hash_axioms;

/// The balances of one account.
#[derive(Clone, Copy, Debug, PartialEq, Eq)]
pub struct AccountData {
    pub free: Balance,
    pub reserved: Balance,
}

/// Free and reserved balances of every account. An account that was never
/// touched holds nothing.
pub struct Balances {
    accounts: HashMap<AccountId, AccountData>,
    existential_deposit: Balance,
}

impl Balances {
    /// The least that a payer must keep after a transfer.
    pub closed spec fn spec_existential_deposit(&self) -> Balance {
        self.existential_deposit
    }

    /// The free balance of `who`.
    pub closed spec fn free(&self, who: AccountId) -> Balance {
        if self.accounts@.contains_key(who) {
            self.accounts@[who].free
        } else {
            0
        }
    }

    /// The reserved balance of `who`.
    pub closed spec fn reserved(&self, who: AccountId) -> Balance {
        if self.accounts@.contains_key(who) {
            self.accounts@[who].reserved
        } else {
            0
        }
    }

    /// What `who` holds in all, free and reserved.
    pub open spec fn total(&self, who: AccountId) -> int {
        self.free(who) + self.reserved(who)
    }

    /// Every account's total fits in a `Balance`.
    pub open spec fn wf(&self) -> bool {
        forall|a: AccountId| #[trigger] self.total(a) <= u128::MAX
    }

    /// `self` and `other` agree on every account but `who`.
    pub open spec fn same_except(&self, other: &Balances, who: AccountId) -> bool {
        &&& forall|a: AccountId| a != who ==> #[trigger] self.free(a) == other.free(a)
        &&& forall|a: AccountId| a != who ==> #[trigger] self.reserved(a) == other.reserved(a)
    }

    /// `self` and `other` agree on every account but `x` and `y`.
    pub open spec fn same_except2(&self, other: &Balances, x: AccountId, y: AccountId) -> bool {
        &&& forall|a: AccountId| a != x && a != y ==> #[trigger] self.free(a) == other.free(a)
        &&& forall|a: AccountId| a != x && a != y ==> #[trigger] self.reserved(a) == other.reserved(
            a,
        )
    }

    /// Whether a keep-alive transfer of `amount` from `from` to `to` goes through.
    pub open spec fn transfer_allowed(
        &self,
        from: AccountId,
        to: AccountId,
        amount: Balance,
    ) -> bool {
        from == to || amount == 0 || {
            &&& amount <= self.free(from)
            &&& self.total(from) - amount >= self.spec_existential_deposit()
            &&& self.total(to) + amount <= u128::MAX
            &&& self.total(to) + amount >= self.spec_existential_deposit()
        }
    }

    /// An empty ledger with the given existential deposit.
    pub fn new(existential_deposit: Balance) -> (r: Balances)
        ensures
            r.wf(),
            r.spec_existential_deposit() == existential_deposit,
            forall|a: AccountId| #[trigger] r.free(a) == 0,
            forall|a: AccountId| #[trigger] r.reserved(a) == 0,
    {
        Balances { accounts: HashMap::new(), existential_deposit }
    }

    fn account(&self, who: AccountId) -> (r: AccountData)
        ensures
            r.free == self.free(who),
            r.reserved == self.reserved(who),
    {
        match self.accounts.get(&who) {
            Some(d) => *d,
            None => AccountData { free: 0, reserved: 0 },
        }
    }

    fn put(&mut self, who: AccountId, d: AccountData)
        ensures
            final(self).free(who) == d.free,
            final(self).reserved(who) == d.reserved,
            final(self).same_except(old(self), who),
            final(self).spec_existential_deposit() == old(self).spec_existential_deposit(),
    {
        self.accounts.insert(who, d);
    }

    /// The least that a payer must keep after a transfer.
    pub fn existential_deposit(&self) -> (r: Balance)
        ensures
            r == self.spec_existential_deposit(),
    {
        self.existential_deposit
    }

    /// The free balance of `who`.
    pub fn free_balance(&self, who: AccountId) -> (r: Balance)
        ensures
            r == self.free(who),
    {
        self.account(who).free
    }

    /// The reserved balance of `who`.
    pub fn reserved_balance(&self, who: AccountId) -> (r: Balance)
        ensures
            r == self.reserved(who),
    {
        self.account(who).reserved
    }

    /// Sets the free balance of `who`, leaving its reserved balance as it is.
    pub fn set_free_balance(&mut self, who: AccountId, free: Balance)
        requires
            old(self).wf(),
            old(self).reserved(who) + free <= u128::MAX,
        ensures
            final(self).wf(),
            final(self).free(who) == free,
            final(self).reserved(who) == old(self).reserved(who),
            final(self).same_except(old(self), who),
            final(self).spec_existential_deposit() == old(self).spec_existential_deposit(),
    {
        let d = self.account(who);
        self.put(who, AccountData { free, reserved: d.reserved });
        assert forall|a: AccountId| #[trigger] self.total(a) <= u128::MAX by {
            if a != who {
                assert(old(self).total(a) <= u128::MAX);
            }
        }
    }

    /// Moves `amount` from the free balance of `who` to its reserved balance.
    /// Fails with `MoneyNotEnough`, changing nothing, when the free balance is
    /// smaller than `amount`.
    pub fn reserve(&mut self, who: AccountId, amount: Balance) -> (r: Result<(), Error>)
        requires
            old(self).wf(),
        ensures
            final(self).wf(),
            r is Ok <==> amount <= old(self).free(who),
            r is Err ==> r == Err::<(), Error>(Error::MoneyNotEnough) && *final(self) == *old(
                self,
            ),
            r is Ok ==> {
                &&& final(self).free(who) == old(self).free(who) - amount
                &&& final(self).reserved(who) == old(self).reserved(who) + amount
                &&& final(self).same_except(old(self), who)
                &&& final(self).spec_existential_deposit()
                    == old(self).spec_existential_deposit()
            },
    {
        let d = self.account(who);
        if d.free < amount {
            return Err(Error::MoneyNotEnough);
        }
        assert(old(self).total(who) <= u128::MAX);
        self.put(who, AccountData { free: d.free - amount, reserved: d.reserved + amount });
        assert forall|a: AccountId| #[trigger] self.total(a) <= u128::MAX by {
            assert(old(self).total(a) <= u128::MAX);
        }
        Ok(())
    }

    /// Moves up to `amount` from the reserved balance of `who` back to its
    /// free balance, and returns the part of `amount` that was not reserved.
    pub fn unreserve(&mut self, who: AccountId, amount: Balance) -> (r: Balance)
        requires
            old(self).wf(),
        ensures
            final(self).wf(),
            ({
                let moved = if amount <= old(self).reserved(who) {
                    amount
                } else {
                    old(self).reserved(who)
                };
                &&& r == amount - moved
                &&& final(self).free(who) == old(self).free(who) + moved
                &&& final(self).reserved(who) == old(self).reserved(who) - moved
            }),
            final(self).same_except(old(self), who),
            final(self).spec_existential_deposit() == old(self).spec_existential_deposit(),
    {
        let d = self.account(who);
        let moved: Balance = if amount <= d.reserved {
            amount
        } else {
            d.reserved
        };
        assert(old(self).total(who) <= u128::MAX);
        self.put(who, AccountData { free: d.free + moved, reserved: d.reserved - moved });
        assert forall|a: AccountId| #[trigger] self.total(a) <= u128::MAX by {
            assert(old(self).total(a) <= u128::MAX);
        }
        amount - moved
    }

    /// Whether a keep-alive transfer of `amount` from `from` to `to` would go through.
    pub fn can_transfer(&self, from: AccountId, to: AccountId, amount: Balance) -> (r: bool)
        requires
            self.wf(),
        ensures
            r == self.transfer_allowed(from, to, amount),
    {
        if from == to || amount == 0 {
            return true;
        }
        let f = self.account(from);
        let t = self.account(to);
        if f.free < amount {
            return false;
        }
        assert(self.total(from) <= u128::MAX);
        assert(self.total(to) <= u128::MAX);
        let from_left: Balance = (f.free - amount) + f.reserved;
        if from_left < self.existential_deposit {
            return false;
        }
        let to_total: Balance = t.free + t.reserved;
        if to_total > u128::MAX - amount {
            return false;
        }
        to_total + amount >= self.existential_deposit
    }

    /// Moves `amount` of free balance from `from` to `to`, keeping `from`
    /// alive. A transfer to oneself, or of nothing, changes nothing. Fails
    /// with `MoneyNotEnough`, changing nothing, when it is not allowed.
    pub fn transfer(&mut self, from: AccountId, to: AccountId, amount: Balance) -> (r: Result<
        (),
        Error,
    >)
        requires
            old(self).wf(),
        ensures
            final(self).wf(),
            r is Ok <==> old(self).transfer_allowed(from, to, amount),
            r is Err ==> r == Err::<(), Error>(Error::MoneyNotEnough) && *final(self) == *old(
                self,
            ),
            r is Ok && (from == to || amount == 0) ==> *final(self) == *old(self),
            r is Ok && from != to ==> {
                &&& final(self).free(from) == old(self).free(from) - amount
                &&& final(self).free(to) == old(self).free(to) + amount
                &&& final(self).reserved(from) == old(self).reserved(from)
                &&& final(self).reserved(to) == old(self).reserved(to)
                &&& final(self).same_except2(old(self), from, to)
                &&& final(self).spec_existential_deposit()
                    == old(self).spec_existential_deposit()
            },
    {
        if !self.can_transfer(from, to, amount) {
            return Err(Error::MoneyNotEnough);
        }
        if from == to || amount == 0 {
            return Ok(());
        }
        let f = self.account(from);
        self.put(from, AccountData { free: f.free - amount, reserved: f.reserved });
        let t = self.account(to);
        self.put(to, AccountData { free: t.free + amount, reserved: t.reserved });
        assert forall|a: AccountId| #[trigger] self.total(a) <= u128::MAX by {
            assert(old(self).total(a) <= u128::MAX);
        }
        Ok(())
    }
}

} // verus!
