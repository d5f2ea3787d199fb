//! The mathematical model of the ledger and of its four transitions.
use vstd::prelude::*;

verus! {

/// Why an operation was rejected. A rejected operation changes nothing.
#[derive(Debug, Clone, Copy, PartialEq, Eq, Structural)]
pub enum Error {
    /// The supply was already initialized.
    AlreadyInitialized,
    /// A debit would drive a balance below zero.
    InsufficientFunds,
    /// A debit would drive an allowance below zero.
    InsufficientApprovedFunds,
    /// A credit would exceed the largest representable quantity.
    ArithmeticOverflow,
}

/// A notification recorded by a successful operation.
#[derive(Debug, Clone, Copy, PartialEq, Eq, Structural)]
pub enum Event {
    /// The supply was initialized; the account received all of it.
    Initialized(u64),
    /// `(from, to, amount)`: tokens moved from one account to another.
    Transfer(u64, u64, u64),
    /// `(owner, spender, amount)`: an allowance was set.
    Approval(u64, u64, u64),
}

/// The abstract state of the ledger.
pub struct LedgerState {
    /// Recorded balance of each account; an absent account holds nothing.
    pub balances: Map<u64, u64>,
    /// Allowance of each `(owner, spender)` pair; an absent pair allows nothing.
    pub allowances: Map<(u64, u64), u64>,
    /// Set once, by initialization.
    pub total_supply: Option<u64>,
    /// False until initialization succeeds, then true for good.
    pub initialized: bool,
    /// Notifications recorded so far, oldest first.
    pub events: Seq<Event>,
}

/// The largest quantity an account can hold.
pub open spec fn max_quantity() -> int {
    u64::MAX as int
}

/// The balance of `a`, reading an absent account as zero.
pub open spec fn balance(s: LedgerState, a: u64) -> int {
    if s.balances.contains_key(a) {
        s.balances[a] as int
    } else {
        0
    }
}

/// The allowance of `spender` over `owner`'s funds, reading an absent pair as zero.
pub open spec fn allowance(s: LedgerState, owner: u64, spender: u64) -> int {
    if s.allowances.contains_key((owner, spender)) {
        s.allowances[(owner, spender)] as int
    } else {
        0
    }
}

/// The recorded balance of `a`, if any.
pub open spec fn recorded_balance(s: LedgerState, a: u64) -> Option<u64> {
    if s.balances.contains_key(a) {
        Some(s.balances[a])
    } else {
        None
    }
}

/// The recorded allowance of `spender` over `owner`'s funds, if any.
pub open spec fn recorded_allowance(s: LedgerState, owner: u64, spender: u64) -> Option<u64> {
    if s.allowances.contains_key((owner, spender)) {
        Some(s.allowances[(owner, spender)])
    } else {
        None
    }
}

/// The balances after `amount` moves from `from` to `to`. Moving funds from
/// an account to itself leaves every balance as it was.
pub open spec fn moved(s: LedgerState, from: u64, to: u64, amount: u64) -> Map<u64, u64> {
    if from == to {
        s.balances
    } else {
        s.balances.insert(from, (balance(s, from) - amount) as u64).insert(
            to,
            (balance(s, to) + amount) as u64,
        )
    }
}

/// Initialization: on an uninitialized ledger, `caller` receives the whole
/// `supply`, which becomes the total supply.
pub open spec fn init_step(s: LedgerState, caller: u64, supply: u64) -> (LedgerState, Result<(), Error>) {
    if s.initialized {
        (s, Err(Error::AlreadyInitialized))
    } else {
        (
            LedgerState {
                balances: s.balances.insert(caller, supply),
                allowances: s.allowances,
                total_supply: Some(supply),
                initialized: true,
                events: s.events.push(Event::Initialized(caller)),
            },
            Ok(()),
        )
    }
}

/// A transfer of `amount` from `caller` to `to`.
pub open spec fn transfer_step(s: LedgerState, caller: u64, to: u64, amount: u64) -> (
    LedgerState,
    Result<(), Error>,
) {
    if balance(s, caller) < amount {
        (s, Err(Error::InsufficientFunds))
    } else if balance(s, to) + amount > max_quantity() {
        (s, Err(Error::ArithmeticOverflow))
    } else {
        (
            LedgerState {
                balances: moved(s, caller, to, amount),
                allowances: s.allowances,
                total_supply: s.total_supply,
                initialized: s.initialized,
                events: s.events.push(Event::Transfer(caller, to, amount)),
            },
            Ok(()),
        )
    }
}

/// An approval: `spender` may now take up to `amount` from `caller`,
/// whatever it could take before.
pub open spec fn approve_step(s: LedgerState, caller: u64, spender: u64, amount: u64) -> LedgerState {
    LedgerState {
        balances: s.balances,
        allowances: s.allowances.insert((caller, spender), amount),
        total_supply: s.total_supply,
        initialized: s.initialized,
        events: s.events.push(Event::Approval(caller, spender, amount)),
    }
}

/// A transfer of `amount` from `owner` to `to`, made by the spender `caller`
/// against its allowance.
pub open spec fn transfer_from_step(
    s: LedgerState,
    caller: u64,
    owner: u64,
    to: u64,
    amount: u64,
) -> (LedgerState, Result<(), Error>) {
    if allowance(s, owner, caller) < amount {
        (s, Err(Error::InsufficientApprovedFunds))
    } else if balance(s, owner) < amount {
        (s, Err(Error::InsufficientFunds))
    } else if balance(s, to) + amount > max_quantity() {
        (s, Err(Error::ArithmeticOverflow))
    } else {
        (
            LedgerState {
                balances: moved(s, owner, to, amount),
                allowances: s.allowances.insert(
                    (owner, caller),
                    (allowance(s, owner, caller) - amount) as u64,
                ),
                total_supply: s.total_supply,
                initialized: s.initialized,
                events: s.events.push(Event::Transfer(owner, to, amount)),
            },
            Ok(()),
        )
    }
}

} // verus!
