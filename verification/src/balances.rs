use vstd::prelude::*;
use vstd::hash_map::StringHashMap;

use crate::support::{DispatchError, DispatchResult};

verus! {

/// The balance recorded for `who` in `m`; accounts never seen report 0.
pub open spec fn bal(m: Map<Seq<char>, u128>, who: Seq<char>) -> u128 {
    if m.dom().contains(who) {
        m[who]
    } else {
        0
    }
}

/// What a transfer of `amount` from `caller` to `to` does to the ledger `m`:
/// the new ledger and the outcome. A transfer fails with
/// `InsufficientBalance` when the caller holds less than `amount`, and with
/// `Overflow` when crediting the recipient would pass the largest
/// representable balance; a failed transfer leaves the ledger untouched. A
/// transfer to oneself succeeds (subject to the same checks) and leaves the
/// ledger unchanged.
pub open spec fn transfer_result(
    m: Map<Seq<char>, u128>,
    caller: Seq<char>,
    to: Seq<char>,
    amount: u128,
) -> (Map<Seq<char>, u128>, DispatchResult) {
    if bal(m, caller) < amount {
        (m, Err(DispatchError::InsufficientBalance))
    } else if bal(m, to) + amount > u128::MAX {
        (m, Err(DispatchError::Overflow))
    } else if caller == to {
        (m, Ok(()))
    } else {
        (
            m.insert(caller, (bal(m, caller) - amount) as u128).insert(
                to,
                (bal(m, to) + amount) as u128,
            ),
            Ok(()),
        )
    }
}

/// The operations the balance ledger exposes to dispatch.
pub enum Call {
    Transfer { to: String, amount: u128 },
}

/// What routing `call` on behalf of `caller` does to the ledger `m`.
pub open spec fn call_result(
    m: Map<Seq<char>, u128>,
    caller: Seq<char>,
    call: Call,
) -> (Map<Seq<char>, u128>, DispatchResult) {
    match call {
        Call::Transfer { to, amount } => transfer_result(m, caller, to@, amount),
    }
}

/// The fungible-balance ledger: one balance per account.
pub struct Pallet {
    pub balances: StringHashMap<u128>,
}

impl View for Pallet {
    type V = Map<Seq<char>, u128>;

    open spec fn view(&self) -> Map<Seq<char>, u128> {
        self.balances@
    }
}

impl Pallet {
    /// The balance this ledger reports for `who`.
    pub open spec fn balance_of(self, who: Seq<char>) -> u128 {
        bal(self@, who)
    }

    pub fn new() -> (p: Self)
        ensures
            p@ == Map::<Seq<char>, u128>::empty(),
    {
        Pallet { balances: StringHashMap::new() }
    }

    /// Unconditional overwrite, meant for the initial endowment before any
    /// block runs; normal dispatch never reaches it.
    pub fn set_balance(&mut self, who: &String, amount: u128)
        ensures
            final(self)@ == old(self)@.insert(who@, amount),
    {
        self.balances.insert(who.clone(), amount);
    }

    pub fn balance(&self, who: &String) -> (b: u128)
        ensures
            b == self.balance_of(who@),
    {
        match self.balances.get(who.as_str()) {
            Some(b) => *b,
            None => 0,
        }
    }

    /// Move `amount` from `caller` to `to`, exactly as `transfer_result`
    /// states: all or nothing, with the error telling which check failed.
    pub fn transfer(&mut self, caller: String, to: String, amount: u128) -> (r: DispatchResult)
        ensures
            ({
                let (m, res) = transfer_result(old(self)@, caller@, to@, amount);
                final(self)@ == m && r == res
            }),
    {
        let caller_balance = self.balance(&caller);
        let to_balance = self.balance(&to);
        if caller_balance < amount {
            return Err(DispatchError::InsufficientBalance);
        }
        if to_balance > u128::MAX - amount {
            return Err(DispatchError::Overflow);
        }
        if caller == to {
            return Ok(());
        }
        let new_caller_balance = caller_balance - amount;
        let new_to_balance = to_balance + amount;
        self.balances.insert(caller, new_caller_balance);
        self.balances.insert(to, new_to_balance);
        Ok(())
    }

    /// Route one balance call to its operation, passing the outcome through
    /// unchanged.
    pub fn dispatch(&mut self, caller: String, call: Call) -> (r: DispatchResult)
        ensures
            ({
                let (m, res) = call_result(old(self)@, caller@, call);
                final(self)@ == m && r == res
            }),
    {
        match call {
            Call::Transfer { to, amount } => self.transfer(caller, to, amount),
        }
    }
}

/// Law: a failed transfer mutates nothing. Whether the check that failed
/// was the caller's funds or the recipient's headroom, the ledger after the
/// attempt is the ledger before it, every balance included.
pub proof fn lemma_failed_transfer_changes_nothing(
    m: Map<Seq<char>, u128>,
    caller: Seq<char>,
    to: Seq<char>,
    amount: u128,
)
    requires
        transfer_result(m, caller, to, amount).1 is Err,
    ensures
        transfer_result(m, caller, to, amount).0 == m,
{
}

/// Law: a successful transfer conserves value. The combined holdings of the
/// two accounts involved are the same before and after, and no transfer
/// creates or destroys balance anywhere else in the ledger.
pub proof fn lemma_transfer_conserves_value(
    m: Map<Seq<char>, u128>,
    caller: Seq<char>,
    to: Seq<char>,
    amount: u128,
)
    requires
        transfer_result(m, caller, to, amount).1 is Ok,
    ensures
        ({
            let after = transfer_result(m, caller, to, amount).0;
            bal(after, caller) + bal(after, to) == bal(m, caller) + bal(m, to)
                && forall|a: Seq<char>|
                    a != caller && a != to ==> #[trigger] bal(after, a) == bal(m, a)
        }),
{
}

} // verus!
