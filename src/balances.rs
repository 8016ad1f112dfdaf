use vstd::prelude::*;

use crate::storage::StorageMap;
use crate::support::{Dispatch, DispatchResult};
use crate::types::{balance_checked_add, balance_checked_sub, AccountId, Balance};

verus! {

/// The balance of `who` in `m`: zero where `m` has no entry for it.
pub open spec fn balance_in(m: Map<Seq<char>, u128>, who: Seq<char>) -> u128 {
    if m.contains_key(who) {
        m[who]
    } else {
        0
    }
}

/// What a transfer of `amount` from `from` to `to` makes of the balances `m`.
/// A transfer to oneself debits and then credits the same account, so it
/// changes nothing once the funds are there.
pub open spec fn transfer_spec(m: Map<Seq<char>, u128>, from: Seq<char>, to: Seq<char>, amount: u128) -> Result<
    Map<Seq<char>, u128>,
    &'static str,
> {
    let fb = balance_in(m, from);
    let tb = balance_in(m, to);
    if fb < amount {
        Err("Not enough funds.")
    } else if from == to {
        Ok(m)
    } else if tb + amount > u128::MAX {
        Err("Overflow")
    } else {
        Ok(m.insert(from, (fb - amount) as u128).insert(to, (tb + amount) as u128))
    }
}

/// The balances module: a balance per account.
#[derive(Debug)]
pub struct Pallet {
    balances: StorageMap<Balance>,
}

/// The calls that the balances module takes from the dispatcher. The caller
/// is supplied by the dispatcher, never by the call.
pub enum EntryPoint {
    Transfer { to: AccountId, amount: Balance },
}

impl Pallet {
    pub closed spec fn wf(&self) -> bool {
        self.balances.wf()
    }

    /// The stored balances.
    pub closed spec fn balances(&self) -> Map<Seq<char>, u128> {
        self.balances@
    }

    pub open spec fn balance_of(&self, who: Seq<char>) -> u128 {
        balance_in(self.balances(), who)
    }

    /// A module with no balances stored.
    pub fn new() -> (r: Self)
        ensures
            r.wf(),
            r.balances() == Map::<Seq<char>, u128>::empty(),
    {
        Pallet { balances: StorageMap::new() }
    }

    /// Overwrites the balance of `who`.
    pub fn set_balance(&mut self, who: &AccountId, amount: Balance)
        requires
            old(self).wf(),
        ensures
            final(self).wf(),
            final(self).balances() == old(self).balances().insert(who@, amount),
    {
        self.balances.insert(who.clone(), amount);
    }

    /// The balance of `who`: zero where none is stored.
    pub fn balance(&self, who: &AccountId) -> (r: Balance)
        requires
            self.wf(),
        ensures
            r == self.balance_of(who@),
            !self.balances().contains_key(who@) ==> r == 0,
    {
        match self.balances.get(who) {
            Some(b) => *b,
            None => 0,
        }
    }

    /// Moves `amount` from `from` to `to`. Fails, changing nothing, when `from`
    /// holds less than `amount` or when `to`'s balance would overflow.
    pub fn transfer(&mut self, from: &AccountId, to: &AccountId, amount: Balance) -> (r: DispatchResult)
        requires
            old(self).wf(),
        ensures
            final(self).wf(),
            match transfer_spec(old(self).balances(), from@, to@, amount) {
                Ok(m) => r == Ok::<(), &'static str>(()) && final(self).balances() == m,
                Err(e) => r == Err::<(), &'static str>(e) && final(self).balances() == old(self).balances(),
            },
            old(self).balance_of(from@) < amount ==> r == Err::<(), &'static str>("Not enough funds."),
            r is Err ==> final(self).balances() == old(self).balances(),
    {
        let caller_balance = self.balance(from);
        let to_balance = self.balance(to);
        let new_caller_balance = match balance_checked_sub(caller_balance, amount) {
            Some(b) => b,
            None => {
                return Err("Not enough funds.");
            },
        };
        if *from == *to {
            return Ok(());
        }
        let new_to_balance = match balance_checked_add(to_balance, amount) {
            Some(b) => b,
            None => {
                return Err("Overflow");
            },
        };
        self.balances.insert(from.clone(), new_caller_balance);
        self.balances.insert(to.clone(), new_to_balance);
        Ok(())
    }
}

impl Dispatch for Pallet {
    type Caller = AccountId;
    type Call = EntryPoint;

    open spec fn inv(&self) -> bool {
        self.wf()
    }

    open spec fn dispatched(before: Self, caller: AccountId, call: EntryPoint, after: Self, r: DispatchResult) -> bool {
        match call {
            EntryPoint::Transfer { to, amount } => match transfer_spec(before.balances(), caller@, to@, amount) {
                Ok(m) => r == Ok::<(), &'static str>(()) && after.balances() == m,
                Err(e) => r == Err::<(), &'static str>(e) && after.balances() == before.balances(),
            },
        }
    }

    fn dispatch(&mut self, caller: AccountId, call: EntryPoint) -> (r: DispatchResult) {
        match call {
            EntryPoint::Transfer { to, amount } => self.transfer(&caller, &to, amount),
        }
    }
}

/// A successful transfer between two accounts debits the sender exactly what
/// it credits the receiver, and leaves every other balance as it was.
pub proof fn lemma_transfer_conserves(m: Map<Seq<char>, u128>, from: Seq<char>, to: Seq<char>, amount: u128)
    requires
        transfer_spec(m, from, to, amount) is Ok,
    ensures
        balance_in(transfer_spec(m, from, to, amount)->Ok_0, from) + balance_in(
            transfer_spec(m, from, to, amount)->Ok_0,
            to,
        ) == balance_in(m, from) + balance_in(m, to),
        from != to ==> balance_in(transfer_spec(m, from, to, amount)->Ok_0, to) == balance_in(m, to) + amount,
        forall|x: Seq<char>|
            x != from && x != to ==> #[trigger] balance_in(transfer_spec(m, from, to, amount)->Ok_0, x)
                == balance_in(m, x),
{
}

/// A transfer that the sender can cover and the receiver can take, followed
/// by the same transfer back, succeeds twice and leaves every balance as it
/// was.
pub proof fn lemma_transfer_round_trip(m: Map<Seq<char>, u128>, a: Seq<char>, b: Seq<char>, amount: u128)
    requires
        balance_in(m, a) >= amount,
        a != b ==> balance_in(m, b) + amount <= u128::MAX,
    ensures
        transfer_spec(m, a, b, amount) is Ok,
        transfer_spec(transfer_spec(m, a, b, amount)->Ok_0, b, a, amount) is Ok,
        forall|x: Seq<char>|
            #[trigger] balance_in(transfer_spec(transfer_spec(m, a, b, amount)->Ok_0, b, a, amount)->Ok_0, x)
                == balance_in(m, x),
{
}

} // verus!
