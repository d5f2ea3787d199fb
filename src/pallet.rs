//! The executable ledger.
use std::collections::HashMap;
use vstd::prelude::*;
use crate::model::{
    Error, Event, LedgerState, approve_step, balance, init_step, moved,
    recorded_allowance, recorded_balance, transfer_from_step, transfer_step,
};

verus! {

/// The token ledger. Accounts are `u64` identities that the host has
/// authenticated. The ledger owns balances, allowances, the total supply and
/// the initialization flag, and records a notification for each success.
pub struct Pallet {
    balances: HashMap<u64, u64>,
    /// Allowances by owner, then by spender.
    allowances: HashMap<u64, HashMap<u64, u64>>,
    total_supply: Option<u64>,
    initialized: bool,
    events: Vec<Event>,
}

impl View for Pallet {
    type V = LedgerState;

    closed spec fn view(&self) -> LedgerState {
        LedgerState {
            balances: self.balances@,
            allowances: Map::new(
                |p: (u64, u64)|
                    self.allowances@.contains_key(p.0) && self.allowances@[p.0]@.contains_key(p.1),
                |p: (u64, u64)| self.allowances@[p.0]@[p.1],
            ),
            total_supply: self.total_supply,
            initialized: self.initialized,
            events: self.events@,
        }
    }
}

impl Pallet {
    /// An empty, uninitialized ledger.
    pub fn new() -> (r: Pallet)
        ensures
            r@.balances == Map::<u64, u64>::empty(),
            r@.allowances == Map::<(u64, u64), u64>::empty(),
            r@.total_supply is None,
            !r@.initialized,
            r@.events == Seq::<Event>::empty(),
    {
        let r = Pallet {
            balances: HashMap::new(),
            allowances: HashMap::new(),
            total_supply: None,
            initialized: false,
            events: Vec::new(),
        };
        assert(r@.allowances =~= Map::<(u64, u64), u64>::empty());
        r
    }

    /// The balance of `who`, reading an absent account as zero.
    fn balance_or_zero(&self, who: u64) -> (r: u64)
        ensures
            r == balance(self@, who),
    {
        match self.balances.get(&who) {
            Some(b) => *b,
            None => 0,
        }
    }

    /// Records `amount` as what `spender` may take from `owner`.
    fn set_allowance(&mut self, owner: u64, spender: u64, amount: u64)
        ensures
            final(self)@.allowances == old(self)@.allowances.insert((owner, spender), amount),
            final(self)@.balances == old(self)@.balances,
            final(self)@.total_supply == old(self)@.total_supply,
            final(self)@.initialized == old(self)@.initialized,
            final(self)@.events == old(self)@.events,
    {
        let mut by_spender = match self.allowances.remove(&owner) {
            Some(m) => m,
            None => HashMap::new(),
        };
        by_spender.insert(spender, amount);
        self.allowances.insert(owner, by_spender);
        assert(self@.allowances =~= old(self)@.allowances.insert((owner, spender), amount));
    }

    /// Moves `amount` from `from` to `to`, whose balances were read as
    /// `from_balance` and `to_balance` and checked to allow it.
    fn move_funds(&mut self, from: u64, to: u64, from_balance: u64, to_balance: u64, amount: u64)
        requires
            from_balance == balance(old(self)@, from),
            to_balance == balance(old(self)@, to),
            amount <= from_balance,
            to_balance + amount <= u64::MAX,
        ensures
            final(self)@.balances == moved(old(self)@, from, to, amount),
            final(self)@.allowances == old(self)@.allowances,
            final(self)@.total_supply == old(self)@.total_supply,
            final(self)@.initialized == old(self)@.initialized,
            final(self)@.events == old(self)@.events,
    {
        if from != to {
            self.balances.insert(from, from_balance - amount);
            self.balances.insert(to, to_balance + amount);
        }
        assert(self@.allowances =~= old(self)@.allowances);
    }

    /// Spends `amount` of `caller`'s allowance over `owner`'s funds, moving it
    /// from `owner` to `to`. Fails, changing nothing, with
    /// `InsufficientApprovedFunds` when the allowance is smaller than `amount`,
    /// else with `InsufficientFunds` when `owner` holds less, else with
    /// `ArithmeticOverflow` when `to` cannot receive it. Absent balances and
    /// allowances read as zero.
    pub fn transfer_from(&mut self, caller: u64, owner: u64, to: u64, amount: u64) -> (r: Result<(), Error>)
        ensures
            final(self)@ == transfer_from_step(old(self)@, caller, owner, to, amount).0,
            r == transfer_from_step(old(self)@, caller, owner, to, amount).1,
    {
        let owner_balance = self.balance_or_zero(owner);
        let to_balance = self.balance_or_zero(to);
        let approved = match self.allowance(owner, caller) {
            Some(a) => a,
            None => 0,
        };
        let updated_approved = match approved.checked_sub(amount) {
            Some(a) => a,
            None => {
                return Err(Error::InsufficientApprovedFunds);
            },
        };
        if owner_balance < amount {
            return Err(Error::InsufficientFunds);
        }
        if to_balance.checked_add(amount).is_none() {
            return Err(Error::ArithmeticOverflow);
        }
        self.move_funds(owner, to, owner_balance, to_balance, amount);
        self.set_allowance(owner, caller, updated_approved);
        self.events.push(Event::Transfer(owner, to, amount));
        Ok(())
    }

    /// Moves `amount` from `caller` to `to`. Fails, changing nothing, with
    /// `InsufficientFunds` when `caller` holds less than `amount`, else with
    /// `ArithmeticOverflow` when `to` cannot receive it. The caller must have a
    /// recorded balance.
    pub fn transfer(&mut self, caller: u64, to: u64, amount: u64) -> (r: Result<(), Error>)
        requires
            old(self)@.balances.contains_key(caller),
        ensures
            final(self)@ == transfer_step(old(self)@, caller, to, amount).0,
            r == transfer_step(old(self)@, caller, to, amount).1,
    {
        let from_balance = self.balance_or_zero(caller);
        let to_balance = self.balance_or_zero(to);
        if from_balance < amount {
            return Err(Error::InsufficientFunds);
        }
        if to_balance.checked_add(amount).is_none() {
            return Err(Error::ArithmeticOverflow);
        }
        self.move_funds(caller, to, from_balance, to_balance, amount);
        self.events.push(Event::Transfer(caller, to, amount));
        Ok(())
    }

    /// Initializes the ledger once: `caller` receives the whole `total_supply`.
    /// Fails with `AlreadyInitialized`, changing nothing, on any later call.
    pub fn init(&mut self, caller: u64, total_supply: u64) -> (r: Result<(), Error>)
        ensures
            final(self)@ == init_step(old(self)@, caller, total_supply).0,
            r == init_step(old(self)@, caller, total_supply).1,
    {
        if self.initialized {
            return Err(Error::AlreadyInitialized);
        }
        self.total_supply = Some(total_supply);
        self.balances.insert(caller, total_supply);
        self.initialized = true;
        self.events.push(Event::Initialized(caller));
        assert(self@.allowances =~= old(self)@.allowances);
        Ok(())
    }

    /// Lets `spender` take up to `amount` from `caller`, replacing any earlier
    /// allowance of that pair.
    /// Never fails.
    pub fn approve(&mut self, caller: u64, spender: u64, amount: u64) -> (r: Result<(), Error>)
        ensures
            final(self)@ == approve_step(old(self)@, caller, spender, amount),
            r == Ok::<(), Error>(()),
    {
        self.set_allowance(caller, spender, amount);
        self.events.push(Event::Approval(caller, spender, amount));
        Ok(())
    }

    /// The recorded balance of `who`, if any.
    pub fn balance_of(&self, who: u64) -> (r: Option<u64>)
        ensures
            r == recorded_balance(self@, who),
    {
        match self.balances.get(&who) {
            Some(b) => Some(*b),
            None => None,
        }
    }

    /// The total supply, once initialized.
    pub fn total_supply(&self) -> (r: Option<u64>)
        ensures
            r == self@.total_supply,
    {
        self.total_supply
    }

    /// Whether the ledger has been initialized.
    pub fn is_initialized(&self) -> (r: bool)
        ensures
            r == self@.initialized,
    {
        self.initialized
    }

    /// The notifications recorded so far, oldest first.
    pub fn events(&self) -> (r: &Vec<Event>)
        ensures
            r@ == self@.events,
    {
        &self.events
    }

    /// Records `amount` as the balance of `who`, as the host does when it
    /// writes the ledger's storage directly (at genesis, for instance).
    pub fn set_balance(&mut self, who: u64, amount: u64)
        ensures
            final(self)@.balances == old(self)@.balances.insert(who, amount),
            final(self)@.allowances == old(self)@.allowances,
            final(self)@.total_supply == old(self)@.total_supply,
            final(self)@.initialized == old(self)@.initialized,
            final(self)@.events == old(self)@.events,
    {
        self.balances.insert(who, amount);
        assert(self@.allowances =~= old(self)@.allowances);
    }

    /// How much `spender` may take from `owner`, if an allowance was recorded.
    pub fn allowance(&self, owner: u64, spender: u64) -> (r: Option<u64>)
        ensures
            r == recorded_allowance(self@, owner, spender),
    {
        match self.allowances.get(&owner) {
            Some(by_spender) => match by_spender.get(&spender) {
                Some(a) => Some(*a),
                None => None,
            },
            None => None,
        }
    }
}

} // verus!
