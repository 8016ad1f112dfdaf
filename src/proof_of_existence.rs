use vstd::prelude::*;

use crate::storage::StorageMap;
use crate::support::{Dispatch, DispatchResult};
use crate::types::{AccountId, Content};

verus! {

/// The configuration of the proof-of-existence module: what content is.
pub trait Config: crate::types::Config {
    type Content;
}

/// What a claim on `content` by `caller` makes of the ownership map `m`.
pub open spec fn create_spec(m: Map<Seq<char>, Seq<char>>, caller: Seq<char>, content: Seq<char>) -> Result<
    Map<Seq<char>, Seq<char>>,
    &'static str,
> {
    if m.contains_key(content) {
        Err("This claim has already been created")
    } else {
        Ok(m.insert(content, caller))
    }
}

/// What a revocation of the claim on `content` by `caller` makes of the
/// ownership map `m`.
pub open spec fn revoke_spec(m: Map<Seq<char>, Seq<char>>, caller: Seq<char>, content: Seq<char>) -> Result<
    Map<Seq<char>, Seq<char>>,
    &'static str,
> {
    if !m.contains_key(content) {
        Err("Claim does not exist")
    } else if m[content] != caller {
        Err("Content does not match the caller")
    } else {
        Ok(m.remove(content))
    }
}

/// The proof-of-existence module: the owner of each claimed piece of content.
/// An account may own many claims; a claim has one owner.
#[derive(Debug)]
pub struct Pallet {
    claims: StorageMap<AccountId>,
}

/// The calls that the proof-of-existence module takes from the dispatcher.
pub enum EntryPoint {
    CreateClaim(Content),
    RevokeClaim(Content),
}

impl Pallet {
    pub closed spec fn wf(&self) -> bool {
        self.claims.wf()
    }

    /// The owner of each claimed piece of content.
    pub closed spec fn owners(&self) -> Map<Seq<char>, Seq<char>> {
        self.claims@.map_values(|o: String| o@)
    }

    /// No content claimed.
    pub fn new() -> (r: Self)
        ensures
            r.wf(),
            r.owners() == Map::<Seq<char>, Seq<char>>::empty(),
    {
        let r = Pallet { claims: StorageMap::new() };
        assert(r.owners() =~= Map::<Seq<char>, Seq<char>>::empty());
        r
    }

    /// The owner of `claim`, if it is claimed.
    pub fn get_claim(&self, claim: &Content) -> (r: Option<&AccountId>)
        requires
            self.wf(),
        ensures
            match r {
                Some(o) => self.owners().contains_key(claim@) && o@ == self.owners()[claim@],
                None => !self.owners().contains_key(claim@),
            },
    {
        self.claims.get(claim)
    }

    /// Records `caller` as the owner of `claim`; fails if it is claimed.
    pub fn create_claim(&mut self, caller: AccountId, claim: Content) -> (r: DispatchResult)
        requires
            old(self).wf(),
        ensures
            final(self).wf(),
            match create_spec(old(self).owners(), caller@, claim@) {
                Ok(m) => r == Ok::<(), &'static str>(()) && final(self).owners() == m,
                Err(e) => r == Err::<(), &'static str>(e) && final(self).owners() == old(self).owners(),
            },
    {
        if self.get_claim(&claim).is_some() {
            return Err("This claim has already been created");
        }
        let ghost c = claim@;
        let ghost o = caller@;
        self.claims.insert(claim, caller);
        assert(self.owners() =~= old(self).owners().insert(c, o));
        Ok(())
    }

    /// Removes the claim on `claim`; fails if it is unclaimed or owned by
    /// another account.
    pub fn revoke_claim(&mut self, caller: AccountId, claim: Content) -> (r: DispatchResult)
        requires
            old(self).wf(),
        ensures
            final(self).wf(),
            match revoke_spec(old(self).owners(), caller@, claim@) {
                Ok(m) => r == Ok::<(), &'static str>(()) && final(self).owners() == m,
                Err(e) => r == Err::<(), &'static str>(e) && final(self).owners() == old(self).owners(),
            },
    {
        let owner = match self.get_claim(&claim) {
            Some(o) => o,
            None => {
                return Err("Claim does not exist");
            },
        };
        if *owner != caller {
            return Err("Content does not match the caller");
        }
        self.claims.remove(&claim);
        assert(self.owners() =~= old(self).owners().remove(claim@));
        Ok(())
    }
}

impl Dispatch for Pallet {
    type Caller = AccountId;
    type Call = EntryPoint;

    open spec fn inv(&self) -> bool {
        self.wf()
    }

    open spec fn dispatched(before: Self, caller: AccountId, call: EntryPoint, after: Self, r: DispatchResult) -> bool {
        let outcome = match call {
            EntryPoint::CreateClaim(c) => create_spec(before.owners(), caller@, c@),
            EntryPoint::RevokeClaim(c) => revoke_spec(before.owners(), caller@, c@),
        };
        match outcome {
            Ok(m) => r == Ok::<(), &'static str>(()) && after.owners() == m,
            Err(e) => r == Err::<(), &'static str>(e) && after.owners() == before.owners(),
        }
    }

    fn dispatch(&mut self, caller: AccountId, call: EntryPoint) -> (r: DispatchResult) {
        match call {
            EntryPoint::CreateClaim(claim) => self.create_claim(caller, claim),
            EntryPoint::RevokeClaim(claim) => self.revoke_claim(caller, claim),
        }
    }
}

/// Once `x` has claimed `content`, `x` owns it; a later claim on it by
/// another account fails and leaves `x` the owner.
pub proof fn lemma_claim_is_exclusive(m: Map<Seq<char>, Seq<char>>, x: Seq<char>, y: Seq<char>, content: Seq<char>)
    requires
        create_spec(m, x, content) is Ok,
        y != x,
    ensures
        create_spec(m, x, content)->Ok_0.contains_key(content),
        create_spec(m, x, content)->Ok_0[content] == x,
        create_spec(create_spec(m, x, content)->Ok_0, y, content) is Err,
{
}

/// The owner of a claim can revoke it, after which the content is unclaimed;
/// any other account's revocation fails and leaves the owner in place.
pub proof fn lemma_revoke_by_owner_only(m: Map<Seq<char>, Seq<char>>, x: Seq<char>, y: Seq<char>, content: Seq<char>)
    requires
        create_spec(m, x, content) is Ok,
        y != x,
    ensures
        revoke_spec(create_spec(m, x, content)->Ok_0, x, content) is Ok,
        !revoke_spec(create_spec(m, x, content)->Ok_0, x, content)->Ok_0.contains_key(content),
        revoke_spec(create_spec(m, x, content)->Ok_0, y, content) is Err,
{
}

} // verus!
