//! The balance module: maps accounts to balances and exposes a checked,
//! atomic transfer operation.

use crate::str_map::StrMap;
use crate::support::{Dispatch, DispatchResult, ErrorKind};
use vstd::prelude::*;

verus! {

/// The balance an account holds in `m`; accounts never endowed hold 0.
pub open spec fn balance_in(m: Map<Seq<char>, u128>, who: Seq<char>) -> u128 {
    if m.contains_key(who) {
        m[who]
    } else {
        0
    }
}

/// What a transfer of `amount` from `caller` to `to` does to the ledger
/// `m`: it fails with `InsufficientBalance` if it would drive the
/// caller's balance below zero, then with `BalanceOverflow` if it would
/// push the recipient's balance past `u128::MAX`, and otherwise debits
/// the caller and credits the recipient in one step. A failed transfer
/// changes nothing.
pub open spec fn spec_transfer(
    m: Map<Seq<char>, u128>,
    caller: Seq<char>,
    to: Seq<char>,
    amount: u128,
) -> Result<Map<Seq<char>, u128>, ErrorKind> {
    let caller_balance = balance_in(m, caller);
    let to_balance = balance_in(m, to);
    if caller_balance < amount {
        Err(ErrorKind::InsufficientBalance)
    } else if to_balance + amount > u128::MAX {
        Err(ErrorKind::BalanceOverflow)
    } else {
        Ok(
            m.insert(caller, (caller_balance - amount) as u128).insert(
                to,
                (to_balance + amount) as u128,
            ),
        )
    }
}

/// Operations the balance module accepts through dispatch.
pub enum Call {
    Transfer { to: String, amount: u128 },
}

/// The balance ledger: maps accounts to balances; absent accounts hold 0.
#[derive(Debug)]
pub struct Balances {
    pub balances: StrMap<u128>,
}

impl Balances {
    /// The balance of `who`; accounts never endowed hold 0.
    pub open spec fn spec_balance(&self, who: Seq<char>) -> u128 {
        balance_in(self.balances@, who)
    }

    /// An empty ledger: every balance at 0.
    pub fn new() -> (r: Self)
        ensures
            r.balances@ == Map::<Seq<char>, u128>::empty(),
    {
        Balances { balances: StrMap::new() }
    }

    /// Unconditionally overwrite the balance of `who`. Used for initial
    /// endowment; not reachable through dispatch.
    pub fn set_balance(&mut self, who: String, amount: u128)
        ensures
            final(self).balances@ == old(self).balances@.insert(who@, amount),
    {
        self.balances.insert(who, amount);
    }

    /// Read the balance of `who`, without side effect.
    pub fn balance(&self, who: &String) -> (r: u128)
        ensures
            r == self.spec_balance(who@),
    {
        match self.balances.get(who) {
            Some(v) => *v,
            None => 0,
        }
    }

    /// Move `amount` from `caller` to `to`, exactly as `spec_transfer`
    /// says: both balances change together, or neither does.
    pub fn transfer(&mut self, caller: String, to: String, amount: u128) -> (r: DispatchResult)
        ensures
            match spec_transfer(old(self).balances@, caller@, to@, amount) {
                Ok(m) => r is Ok && final(self).balances@ == m,
                Err(e) => r == Err::<(), ErrorKind>(e) && final(self).balances@ == old(
                    self,
                ).balances@,
            },
    {
        let caller_balance = self.balance(&caller);
        let to_balance = self.balance(&to);

        let new_caller_balance = match caller_balance.checked_sub(amount) {
            Some(v) => v,
            None => {
                return Err(ErrorKind::InsufficientBalance);
            },
        };
        let new_to_balance = match to_balance.checked_add(amount) {
            Some(v) => v,
            None => {
                return Err(ErrorKind::BalanceOverflow);
            },
        };

        self.set_balance(caller, new_caller_balance);
        self.set_balance(to, new_to_balance);

        Ok(())
    }
}

impl Dispatch for Balances {
    type Caller = String;

    type Call = Call;

    fn dispatch(&mut self, caller: String, call: Call) -> (r: DispatchResult)
        ensures
            match call {
                Call::Transfer { to, amount } => match spec_transfer(
                    old(self).balances@,
                    caller@,
                    to@,
                    amount,
                ) {
                    Ok(m) => r is Ok && final(self).balances@ == m,
                    Err(e) => r == Err::<(), ErrorKind>(e) && final(self).balances@ == old(
                        self,
                    ).balances@,
                },
            },
    {
        match call {
            Call::Transfer { to, amount } => self.transfer(caller, to, amount),
        }
    }
}

/// Zero default balance: an account the ledger has never seen holds 0.
pub proof fn lemma_zero_default_balance(b: &Balances, who: Seq<char>)
    requires
        !b.balances@.contains_key(who),
    ensures
        b.spec_balance(who) == 0,
{
}

/// Set/get round-trip: after the balance of `who` is set to `amount`,
/// reading it back gives `amount`.
pub proof fn lemma_set_balance_roundtrip(m: Map<Seq<char>, u128>, who: Seq<char>, amount: u128)
    ensures
        balance_in(m.insert(who, amount), who) == amount,
{
}

/// Transfer conserves total supply: a successful transfer between two
/// distinct accounts debits the caller by exactly `amount`, credits the
/// recipient by exactly `amount`, and leaves the sum of the two balances
/// unchanged.
pub proof fn lemma_transfer_conserves_total(
    m: Map<Seq<char>, u128>,
    caller: Seq<char>,
    to: Seq<char>,
    amount: u128,
)
    requires
        caller != to,
        spec_transfer(m, caller, to, amount) is Ok,
    ensures
        ({
            let m2 = spec_transfer(m, caller, to, amount)->Ok_0;
            &&& balance_in(m2, caller) == balance_in(m, caller) - amount
            &&& balance_in(m2, to) == balance_in(m, to) + amount
            &&& balance_in(m2, caller) + balance_in(m2, to) == balance_in(m, caller) + balance_in(
                m,
                to,
            )
        }),
{
}

/// Underflow rejection: a transfer of more than the caller holds fails
/// with `InsufficientBalance` (and, by `transfer`'s contract, changes
/// no balance).
pub proof fn lemma_underflow_rejected(
    m: Map<Seq<char>, u128>,
    caller: Seq<char>,
    to: Seq<char>,
    amount: u128,
)
    requires
        balance_in(m, caller) < amount,
    ensures
        spec_transfer(m, caller, to, amount) == Err::<Map<Seq<char>, u128>, ErrorKind>(
            ErrorKind::InsufficientBalance,
        ),
{
}

} // verus!
