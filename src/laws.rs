//! Laws of the ledger, stated over the model that the operations' contracts use.
use vstd::prelude::*;
use crate::model::{
    Error, LedgerState, allowance, approve_step, balance, init_step, max_quantity,
    recorded_allowance, recorded_balance, transfer_from_step, transfer_step,
};

verus! {

/// Initialization happens once: whatever the state, a second initialization,
/// by any caller and with any supply, fails with `AlreadyInitialized` and
/// leaves the state exactly as the first call left it.
pub proof fn lemma_init_only_once(
    s: LedgerState,
    first_caller: u64,
    first_supply: u64,
    second_caller: u64,
    second_supply: u64,
)
    ensures
        ({
            let after_first = init_step(s, first_caller, first_supply).0;
            let (after_second, r) = init_step(after_first, second_caller, second_supply);
            r == Err::<(), Error>(Error::AlreadyInitialized) && after_second == after_first
        }),
{
}

/// Initializing a fresh ledger with supply `supply` succeeds, makes `supply`
/// the total supply and the caller's balance, and marks the ledger initialized.
pub proof fn lemma_init_sets_supply(s: LedgerState, caller: u64, supply: u64)
    requires
        !s.initialized,
    ensures
        ({
            let (t, r) = init_step(s, caller, supply);
            &&& r is Ok
            &&& t.total_supply == Some(supply)
            &&& recorded_balance(t, caller) == Some(supply)
            &&& t.initialized
        }),
{
}

/// A transfer that the sender can cover and the recipient can hold succeeds.
/// Between two accounts, the sender's balance drops by exactly the amount,
/// the recipient's grows by exactly the amount, their sum is unchanged and
/// every other balance stays as it was; to oneself, no balance changes.
pub proof fn lemma_transfer_conserves(s: LedgerState, from: u64, to: u64, amount: u64)
    requires
        balance(s, from) >= amount,
        balance(s, to) + amount <= max_quantity(),
    ensures
        ({
            let (t, r) = transfer_step(s, from, to, amount);
            &&& r is Ok
            &&& from != to ==> {
                &&& balance(t, from) == balance(s, from) - amount
                &&& balance(t, to) == balance(s, to) + amount
                &&& balance(t, from) + balance(t, to) == balance(s, from) + balance(s, to)
            }
            &&& from == to ==> t.balances == s.balances
            &&& forall|c: u64| c != from && c != to ==> #[trigger] balance(t, c) == balance(s, c)
            &&& t.total_supply == s.total_supply
        }),
{
}

/// A transfer of more than the sender holds fails with `InsufficientFunds`
/// and changes nothing.
pub proof fn lemma_transfer_insufficient_funds(s: LedgerState, from: u64, to: u64, amount: u64)
    requires
        amount > balance(s, from),
    ensures
        transfer_step(s, from, to, amount) == (s, Err::<(), Error>(Error::InsufficientFunds)),
{
}

/// A transfer that the sender can cover but that would push the recipient's
/// balance past the largest quantity fails with `ArithmeticOverflow` and
/// changes nothing.
pub proof fn lemma_transfer_overflow(s: LedgerState, from: u64, to: u64, amount: u64)
    requires
        balance(s, from) >= amount,
        balance(s, to) + amount > max_quantity(),
    ensures
        transfer_step(s, from, to, amount) == (s, Err::<(), Error>(Error::ArithmeticOverflow)),
{
}

/// Approvals overwrite: after approving `first` and then `second` for the
/// same pair, the allowance is `second`, just as if only `second` had been
/// approved.
pub proof fn lemma_approve_overwrites(
    s: LedgerState,
    owner: u64,
    spender: u64,
    first: u64,
    second: u64,
)
    ensures
        ({
            let t = approve_step(approve_step(s, owner, spender, first), owner, spender, second);
            &&& recorded_allowance(t, owner, spender) == Some(second)
            &&& t.allowances == approve_step(s, owner, spender, second).allowances
        }),
{
    let once = approve_step(s, owner, spender, second).allowances;
    let twice = approve_step(approve_step(s, owner, spender, first), owner, spender, second).allowances;
    assert(twice =~= once);
}

/// A delegated transfer succeeds exactly when the allowance, the owner's
/// balance and the recipient's headroom all cover the amount. On success the
/// allowance and the owner's balance drop by the amount and the recipient's
/// balance grows by it (no balance changes when owner and recipient are the
/// same account); on failure nothing changes.
pub proof fn lemma_transfer_from_atomic(
    s: LedgerState,
    spender: u64,
    owner: u64,
    to: u64,
    amount: u64,
)
    ensures
        ({
            let (t, r) = transfer_from_step(s, spender, owner, to, amount);
            &&& r is Ok <==> {
                &&& allowance(s, owner, spender) >= amount
                &&& balance(s, owner) >= amount
                &&& balance(s, to) + amount <= max_quantity()
            }
            &&& r is Ok ==> {
                &&& allowance(t, owner, spender) == allowance(s, owner, spender) - amount
                &&& owner != to ==> balance(t, owner) == balance(s, owner) - amount
                &&& owner != to ==> balance(t, to) == balance(s, to) + amount
                &&& owner == to ==> t.balances == s.balances
            }
            &&& r is Err ==> t == s
        }),
{
}

/// Once initialized, a ledger stays initialized through every operation.
pub proof fn lemma_initialized_is_permanent(
    s: LedgerState,
    caller: u64,
    other: u64,
    third: u64,
    amount: u64,
)
    requires
        s.initialized,
    ensures
        init_step(s, caller, amount).0.initialized,
        transfer_step(s, caller, other, amount).0.initialized,
        approve_step(s, caller, other, amount).initialized,
        transfer_from_step(s, caller, other, third, amount).0.initialized,
{
}

} // verus!
