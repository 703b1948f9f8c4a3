use vstd::prelude::*;
use vstd::hash_map::StringHashMap;

use crate::support::{DispatchError, DispatchResult};

verus! {

/// The claim registry seen abstractly: content as a sequence of characters
/// mapped to the owning account as a sequence of characters.
pub open spec fn owners_in(m: Map<Seq<char>, String>) -> Map<Seq<char>, Seq<char>> {
    Map::new(|c: Seq<char>| m.dom().contains(c), |c: Seq<char>| m[c]@)
}

/// What creating a claim does to the registry `m`: the new registry and the
/// outcome. Content already claimed by anyone is refused with
/// `AlreadyClaimed` and the registry is untouched; otherwise `caller`
/// becomes the owner.
pub open spec fn create_result(
    m: Map<Seq<char>, Seq<char>>,
    caller: Seq<char>,
    content: Seq<char>,
) -> (Map<Seq<char>, Seq<char>>, DispatchResult) {
    if m.dom().contains(content) {
        (m, Err(DispatchError::AlreadyClaimed))
    } else {
        (m.insert(content, caller), Ok(()))
    }
}

/// What revoking a claim does to the registry `m`: the new registry and the
/// outcome. Unclaimed content is refused with `NoSuchClaim`; content owned
/// by someone other than `caller` is refused with `NotClaimOwner`; either
/// refusal leaves the registry untouched. Otherwise the mapping is removed.
pub open spec fn revoke_result(
    m: Map<Seq<char>, Seq<char>>,
    caller: Seq<char>,
    content: Seq<char>,
) -> (Map<Seq<char>, Seq<char>>, DispatchResult) {
    if !m.dom().contains(content) {
        (m, Err(DispatchError::NoSuchClaim))
    } else if m[content] != caller {
        (m, Err(DispatchError::NotClaimOwner))
    } else {
        (m.remove(content), Ok(()))
    }
}

/// The operations the claim registry exposes to dispatch.
pub enum Call {
    CreateClaim { claim: String },
    RevokeClaim { claim: String },
}

/// What routing `call` on behalf of `caller` does to the registry `m`.
pub open spec fn call_result(
    m: Map<Seq<char>, Seq<char>>,
    caller: Seq<char>,
    call: Call,
) -> (Map<Seq<char>, Seq<char>>, DispatchResult) {
    match call {
        Call::CreateClaim { claim } => create_result(m, caller, claim@),
        Call::RevokeClaim { claim } => revoke_result(m, caller, claim@),
    }
}

/// The claim registry: content mapped to the one account that owns it;
/// absence of a mapping means the content is unclaimed.
pub struct Pallet {
    pub claims: StringHashMap<String>,
}

impl View for Pallet {
    type V = Map<Seq<char>, Seq<char>>;

    open spec fn view(&self) -> Map<Seq<char>, Seq<char>> {
        owners_in(self.claims@)
    }
}

impl Pallet {
    pub fn new() -> (p: Self)
        ensures
            p@ == Map::<Seq<char>, Seq<char>>::empty(),
    {
        let p = Pallet { claims: StringHashMap::new() };
        proof {
            assert(p@ =~= Map::<Seq<char>, Seq<char>>::empty());
        }
        p
    }

    pub fn get_claim(&self, claim: &String) -> (owner: Option<&String>)
        ensures
            match owner {
                Some(o) => self@.dom().contains(claim@) && self@[claim@] == o@,
                None => !self@.dom().contains(claim@),
            },
    {
        self.claims.get(claim.as_str())
    }

    /// Record `caller` as the owner of `claim`, exactly as `create_result`
    /// states.
    pub fn create_claim(&mut self, caller: String, claim: String) -> (r: DispatchResult)
        ensures
            ({
                let (m, res) = create_result(old(self)@, caller@, claim@);
                final(self)@ == m && r == res
            }),
    {
        if self.claims.contains_key(claim.as_str()) {
            return Err(DispatchError::AlreadyClaimed);
        }
        let ghost before = self.claims@;
        self.claims.insert(claim, caller);
        proof {
            assert(self@ =~= owners_in(before).insert(claim@, caller@));
        }
        Ok(())
    }

    /// Remove `caller`'s claim to `claim`, exactly as `revoke_result` states.
    pub fn revoke_claim(&mut self, caller: String, claim: String) -> (r: DispatchResult)
        ensures
            ({
                let (m, res) = revoke_result(old(self)@, caller@, claim@);
                final(self)@ == m && r == res
            }),
    {
        let owner = match self.claims.get(claim.as_str()) {
            Some(o) => o,
            None => {
                return Err(DispatchError::NoSuchClaim);
            },
        };
        if !owner.eq(&caller) {
            return Err(DispatchError::NotClaimOwner);
        }
        let ghost before = self.claims@;
        self.claims.remove(claim.as_str());
        proof {
            assert(self@ =~= owners_in(before).remove(claim@));
        }
        Ok(())
    }

    /// Route one claim call to its operation, passing the outcome through
    /// unchanged.
    pub fn dispatch(&mut self, caller: String, call: Call) -> (r: DispatchResult)
        ensures
            ({
                let (m, res) = call_result(old(self)@, caller@, call);
                final(self)@ == m && r == res
            }),
    {
        match call {
            Call::CreateClaim { claim } => self.create_claim(caller, claim),
            Call::RevokeClaim { claim } => self.revoke_claim(caller, claim),
        }
    }
}

/// Law: creating the same claim twice fails the second time, whoever makes
/// the second call, and the registry still names the first caller as owner.
pub proof fn lemma_create_claim_twice(
    m: Map<Seq<char>, Seq<char>>,
    first: Seq<char>,
    second: Seq<char>,
    content: Seq<char>,
)
    requires
        !m.dom().contains(content),
    ensures
        ({
            let (m1, r1) = create_result(m, first, content);
            let (m2, r2) = create_result(m1, second, content);
            r1 is Ok && r2 == Err::<(), DispatchError>(DispatchError::AlreadyClaimed) && m2 == m1
                && m2[content] == first
        }),
{
}

/// Law: a revocation attempted by anyone but the current owner fails with
/// `NotClaimOwner`, and the claim remains owned by that owner.
pub proof fn lemma_revoke_by_non_owner(
    m: Map<Seq<char>, Seq<char>>,
    caller: Seq<char>,
    content: Seq<char>,
)
    requires
        m.dom().contains(content),
        m[content] != caller,
    ensures
        ({
            let (m1, r1) = revoke_result(m, caller, content);
            r1 == Err::<(), DispatchError>(DispatchError::NotClaimOwner) && m1 == m
                && m1[content] == m[content]
        }),
{
}

} // verus!
