use vstd::prelude::*;

use crate::balances;
use crate::balances::transfer_spec;
use crate::proof_of_existence;
use crate::proof_of_existence::{create_spec, revoke_spec};
use crate::support;
use crate::support::{Dispatch, DispatchResult};
use crate::system;
use crate::system::{bumped_all, lemma_nonce_counts_calls, nonce_in, occurrences};
use crate::types::{AccountId, Balance, BlockNumber, Content, Nonce};

verus! {

/// A call as the runtime takes it: the module, then the module's own call.
pub enum RuntimeCall {
    Balances(balances::EntryPoint),
    ProofOfExistence(proof_of_existence::EntryPoint),
}

/// An extrinsic of this runtime.
pub type Extrinsic = support::Extrinsic<AccountId, RuntimeCall>;

/// A block header of this runtime.
pub type Header = support::Header<BlockNumber>;

/// A block of this runtime.
pub type Block = support::Block<Header, Extrinsic>;

/// The balances and the claim owners: the part of the state that calls change.
pub type Ledger = (Map<Seq<char>, u128>, Map<Seq<char>, Seq<char>>);

/// What `call`, made on behalf of `caller`, makes of the ledger `s`, and its
/// outcome.
pub open spec fn call_spec(s: Ledger, caller: Seq<char>, call: RuntimeCall) -> (Ledger, DispatchResult) {
    match call {
        RuntimeCall::Balances(balances::EntryPoint::Transfer { to, amount }) => match transfer_spec(
            s.0,
            caller,
            to@,
            amount,
        ) {
            Ok(m) => ((m, s.1), Ok(())),
            Err(e) => (s, Err(e)),
        },
        RuntimeCall::ProofOfExistence(c) => {
            let outcome = match c {
                proof_of_existence::EntryPoint::CreateClaim(x) => create_spec(s.1, caller, x@),
                proof_of_existence::EntryPoint::RevokeClaim(x) => revoke_spec(s.1, caller, x@),
            };
            match outcome {
                Ok(m) => ((s.0, m), Ok(())),
                Err(e) => (s, Err(e)),
            }
        },
    }
}

/// The ledger `s` after each of `exts`, in order; a failed call leaves it
/// as it was.
pub open spec fn apply_all(s: Ledger, exts: Seq<Extrinsic>) -> Ledger
    decreases exts.len(),
{
    if exts.len() == 0 {
        s
    } else {
        call_spec(apply_all(s, exts.drop_last()), exts.last().caller@, exts.last().call).0
    }
}

/// The position and reason of each of `exts` that fails when they are
/// applied in order to `s`.
pub open spec fn failures_of(s: Ledger, exts: Seq<Extrinsic>) -> Seq<(usize, &'static str)>
    decreases exts.len(),
{
    if exts.len() == 0 {
        Seq::empty()
    } else {
        let earlier = failures_of(s, exts.drop_last());
        match call_spec(apply_all(s, exts.drop_last()), exts.last().caller@, exts.last().call).1 {
            Ok(_) => earlier,
            Err(e) => earlier.push(((exts.len() - 1) as usize, e)),
        }
    }
}

/// The callers of `exts`, in order.
pub open spec fn callers_of(exts: Seq<Extrinsic>) -> Seq<Seq<char>> {
    exts.map_values(|e: Extrinsic| e.caller@)
}

proof fn lemma_occurrences_prefix(s: Seq<Seq<char>>, k: int, who: Seq<char>)
    requires
        0 <= k <= s.len(),
    ensures
        occurrences(s.take(k), who) <= occurrences(s, who),
    decreases s.len(),
{
    if k < s.len() {
        lemma_occurrences_prefix(s.drop_last(), k, who);
        assert(s.drop_last().take(k) =~= s.take(k));
    } else {
        assert(s.take(k) =~= s);
    }
}

/// The runtime: one instance of each module.
#[derive(Debug)]
pub struct Runtime {
    system: system::Pallet,
    balances: balances::Pallet,
    proof: proof_of_existence::Pallet,
}

impl Runtime {
    pub closed spec fn wf(&self) -> bool {
        self.system.wf() && self.balances.wf() && self.proof.wf()
    }

    /// The current block number.
    pub closed spec fn current_block(&self) -> u32 {
        self.system.current_block()
    }

    /// The stored nonces.
    pub closed spec fn nonces(&self) -> Map<Seq<char>, u32> {
        self.system.nonces()
    }

    /// The stored balances and claim owners.
    pub closed spec fn ledger(&self) -> Ledger {
        (self.balances.balances(), self.proof.owners())
    }

    /// Creates a runtime with block number zero and nothing stored.
    pub fn new() -> (r: Self)
        ensures
            r.wf(),
            r.current_block() == 0,
            r.nonces() == Map::<Seq<char>, u32>::empty(),
            r.ledger() == (Map::<Seq<char>, u128>::empty(), Map::<Seq<char>, Seq<char>>::empty()),
    {
        Runtime {
            system: system::Pallet::new(),
            balances: balances::Pallet::new(),
            proof: proof_of_existence::Pallet::new(),
        }
    }

    /// Overwrites the balance of `who`, outside of any block.
    pub fn set_balance(&mut self, who: &AccountId, amount: Balance)
        requires
            old(self).wf(),
        ensures
            final(self).wf(),
            final(self).ledger() == (old(self).ledger().0.insert(who@, amount), old(self).ledger().1),
            final(self).current_block() == old(self).current_block(),
            final(self).nonces() == old(self).nonces(),
    {
        self.balances.set_balance(who, amount);
    }

    /// The current block number.
    pub fn block_number(&self) -> (r: BlockNumber)
        ensures
            r == self.current_block(),
    {
        self.system.block_number()
    }

    /// The balance of `who`: zero where none is stored.
    pub fn balance(&self, who: &AccountId) -> (r: Balance)
        requires
            self.wf(),
        ensures
            r == balances::balance_in(self.ledger().0, who@),
    {
        self.balances.balance(who)
    }

    /// The nonce of `who`: zero where none is stored.
    pub fn nonce(&self, who: &AccountId) -> (r: Nonce)
        requires
            self.wf(),
        ensures
            r == nonce_in(self.nonces(), who@),
    {
        self.system.nonce(who)
    }

    /// The owner of `claim`, if it is claimed.
    pub fn get_claim(&self, claim: &Content) -> (r: Option<&AccountId>)
        requires
            self.wf(),
        ensures
            match r {
                Some(o) => self.ledger().1.contains_key(claim@) && o@ == self.ledger().1[claim@],
                None => !self.ledger().1.contains_key(claim@),
            },
    {
        self.proof.get_claim(claim)
    }

    /// Executes a block. The block must carry the next block number, else
    /// nothing changes and the block is refused. Each extrinsic counts one
    /// more call by its caller and is then dispatched; one that fails changes
    /// nothing else and does not stop the block. Returns the position and
    /// reason of each failure, in order. No caller may make its nonce
    /// overflow.
    pub fn execute_block(&mut self, block: Block) -> (r: Result<Vec<(usize, &'static str)>, &'static str>)
        requires
            old(self).wf(),
            forall|a: Seq<char>|
                nonce_in(old(self).nonces(), a) + #[trigger] occurrences(callers_of(block.extrinsics@), a)
                    <= u32::MAX,
        ensures
            final(self).wf(),
            old(self).current_block() + 1 != block.header.block_number ==> r == Err::<
                Vec<(usize, &'static str)>,
                &'static str,
            >("Incorrect Block Number") && *final(self) == *old(self),
            old(self).current_block() + 1 == block.header.block_number ==> {
                &&& r is Ok
                &&& r->Ok_0@ == failures_of(old(self).ledger(), block.extrinsics@)
                &&& final(self).current_block() == block.header.block_number
                &&& final(self).nonces() == bumped_all(old(self).nonces(), callers_of(block.extrinsics@))
                &&& final(self).ledger() == apply_all(old(self).ledger(), block.extrinsics@)
            },
    {
        if self.system.block_number() == u32::MAX || self.system.block_number() + 1 != block.header.block_number {
            return Err("Incorrect Block Number");
        }
        self.system.inc_block_number();
        let ghost exts = block.extrinsics@;
        let ghost callers = callers_of(exts);
        let ghost n0 = self.nonces();
        let ghost s0 = self.ledger();
        let ghost b = self.current_block();
        let mut rest = block.extrinsics;
        let len = rest.len();
        let ghost n = len as nat;
        let mut pending: Vec<Extrinsic> = Vec::new();
        while rest.len() > 0
            invariant
                exts.len() == rest@.len() + pending@.len(),
                rest@ == exts.take(rest@.len() as int),
                pending@ == exts.skip(rest@.len() as int).reverse(),
            decreases rest@.len(),
        {
            let ghost k = rest@.len() as int;
            let e = rest.pop().unwrap();
            pending.push(e);
            assert(rest@ =~= exts.take(k - 1));
            assert(pending@ =~= exts.skip(k - 1).reverse());
        }
        assert(exts.skip(0) =~= exts);
        let mut failures: Vec<(usize, &'static str)> = Vec::new();
        let mut i: usize = 0;
        while pending.len() > 0
            invariant
                self.wf(),
                i + pending@.len() == exts.len(),
                exts.len() == n,
                n <= usize::MAX,
                pending@ == exts.skip(i as int).reverse(),
                callers == callers_of(exts),
                forall|a: Seq<char>| nonce_in(n0, a) + #[trigger] occurrences(callers, a) <= u32::MAX,
                self.current_block() == b,
                self.nonces() == bumped_all(n0, callers.take(i as int)),
                self.ledger() == apply_all(s0, exts.take(i as int)),
                failures@ == failures_of(s0, exts.take(i as int)),
            decreases pending@.len(),
        {
            let ext = pending.pop().unwrap();
            assert(ext == exts[i as int]);
            assert(pending@ =~= exts.skip(i + 1).reverse());
            let support::Extrinsic { caller, call } = ext;
            let ghost c = caller@;
            proof {
                assert(callers.take(i + 1).drop_last() =~= callers.take(i as int));
                assert(callers.take(i + 1).last() == c);
                lemma_occurrences_prefix(callers, i + 1, c);
                lemma_nonce_counts_calls(n0, callers.take(i as int), c);
            }
            self.system.inc_nonce(&caller);
            let res = self.dispatch(caller, call);
            proof {
                assert(exts.take(i + 1).drop_last() =~= exts.take(i as int));
                assert(exts.take(i + 1).last() == ext);
            }
            match res {
                Ok(()) => {},
                Err(e) => {
                    failures.push((i, e));
                },
            }
            i = i + 1;
        }
        assert(exts.take(i as int) =~= exts);
        assert(callers.take(i as int) =~= callers);
        Ok(failures)
    }
}

impl crate::types::Config for Runtime {
    type AccountId = String;
    type BlockNumber = u32;
    type Nonce = u32;
    type Balance = u128;
}

impl proof_of_existence::Config for Runtime {
    type Content = String;
}

impl Dispatch for Runtime {
    type Caller = AccountId;
    type Call = RuntimeCall;

    open spec fn inv(&self) -> bool {
        self.wf()
    }

    open spec fn dispatched(before: Self, caller: AccountId, call: RuntimeCall, after: Self, r: DispatchResult) -> bool {
        &&& call_spec(before.ledger(), caller@, call) == (after.ledger(), r)
        &&& after.current_block() == before.current_block()
        &&& after.nonces() == before.nonces()
    }

    /// Forwards the call, unchanged, to the module that it names.
    fn dispatch(&mut self, caller: AccountId, call: RuntimeCall) -> (r: DispatchResult) {
        match call {
            RuntimeCall::Balances(call) => self.balances.dispatch(caller, call),
            RuntimeCall::ProofOfExistence(call) => self.proof.dispatch(caller, call),
        }
    }
}

} // verus!
