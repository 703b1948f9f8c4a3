use vstd::prelude::*;

use crate::balances;
use crate::proof_of_existence;
use crate::support::{DispatchResult, ExtrinsicFailure};
use crate::system::nonce_in;
use crate::{Extrinsic, RuntimeCall};

verus! {

/// Everything the three registries hold, seen abstractly: nonces and
/// balances per account, and the owner of each claimed content. The block
/// height is deliberately not part of it: dispatch never touches the height,
/// and the executor's contract speaks of the height separately.
#[verifier::ext_equal]
pub struct StateView {
    pub nonces: Map<Seq<char>, u32>,
    pub balances: Map<Seq<char>, u128>,
    pub claims: Map<Seq<char>, Seq<char>>,
}

/// What dispatching one call on behalf of `caller` does to the state: the
/// new state and the outcome. Routing adds nothing of its own: the pair is
/// exactly what the module addressed by the call produces, and the other
/// registries are untouched.
pub open spec fn apply_call(s: StateView, caller: Seq<char>, call: RuntimeCall) -> (
    StateView,
    DispatchResult,
) {
    match call {
        RuntimeCall::Balances(c) => {
            let mr = balances::call_result(s.balances, caller, c);
            (StateView { nonces: s.nonces, balances: mr.0, claims: s.claims }, mr.1)
        },
        RuntimeCall::ProofOfExistence(c) => {
            let mr = proof_of_existence::call_result(s.claims, caller, c);
            (StateView { nonces: s.nonces, balances: s.balances, claims: mr.0 }, mr.1)
        },
    }
}

/// The state after `who`'s nonce is raised by one.
pub open spec fn bump_nonce(s: StateView, who: Seq<char>) -> StateView {
    StateView {
        nonces: s.nonces.insert(who, (nonce_in(s.nonces, who) + 1) as u32),
        balances: s.balances,
        claims: s.claims,
    }
}

/// What executing one extrinsic does to the state: the caller's nonce is
/// raised first, unconditionally, and then the call is dispatched.
pub open spec fn apply_extrinsic(s: StateView, xt: Extrinsic) -> (StateView, DispatchResult) {
    apply_call(bump_nonce(s, xt.caller@), xt.caller@, xt.call)
}

/// The state after executing the extrinsics in order, each one applied to
/// the state the previous ones left; failed extrinsics leave their mark only
/// through the nonce bump.
pub open spec fn apply_extrinsics(s: StateView, xts: Seq<Extrinsic>) -> StateView
    decreases xts.len(),
{
    if xts.len() == 0 {
        s
    } else {
        apply_extrinsic(apply_extrinsics(s, xts.drop_last()), xts.last()).0
    }
}

/// The report the executor hands back for a block numbered `block_number`:
/// one entry, in order, for each extrinsic whose dispatch failed, carrying
/// the extrinsic's position in the block and the error.
pub open spec fn failure_reports(
    s: StateView,
    xts: Seq<Extrinsic>,
    block_number: u32,
) -> Seq<ExtrinsicFailure>
    decreases xts.len(),
{
    if xts.len() == 0 {
        Seq::empty()
    } else {
        let prev = failure_reports(s, xts.drop_last(), block_number);
        match apply_extrinsic(apply_extrinsics(s, xts.drop_last()), xts.last()).1 {
            Ok(_) => prev,
            Err(e) => prev.push(
                ExtrinsicFailure {
                    block_number,
                    index: (xts.len() - 1) as usize,
                    error: e,
                },
            ),
        }
    }
}

/// How many of the extrinsics are authored by `who`.
pub open spec fn authored_count(xts: Seq<Extrinsic>, who: Seq<char>) -> nat
    decreases xts.len(),
{
    if xts.len() == 0 {
        0
    } else {
        authored_count(xts.drop_last(), who) + if xts.last().caller@ == who {
            1nat
        } else {
            0nat
        }
    }
}

/// No account authors more extrinsics than the block holds. Callers of the
/// executor discharge its nonce-headroom obligation with this: headroom for
/// the whole block's length is headroom for every single account.
pub proof fn lemma_authored_count_le_len(xts: Seq<Extrinsic>, who: Seq<char>)
    ensures
        authored_count(xts, who) <= xts.len(),
    decreases xts.len(),
{
    if xts.len() > 0 {
        lemma_authored_count_le_len(xts.drop_last(), who);
    }
}

/// Taking one more extrinsic into a prefix raises the count for its author
/// by one and changes no other count.
pub proof fn lemma_authored_count_step(xts: Seq<Extrinsic>, i: int, who: Seq<char>)
    requires
        0 <= i < xts.len(),
    ensures
        authored_count(xts.subrange(0, i + 1), who) == authored_count(xts.subrange(0, i), who)
            + if xts[i].caller@ == who {
            1nat
        } else {
            0nat
        },
{
    assert(xts.subrange(0, i + 1).drop_last() =~= xts.subrange(0, i));
    assert(xts.subrange(0, i + 1).last() == xts[i]);
}

/// No account authors more extrinsics in a prefix than in the whole block.
pub proof fn lemma_authored_count_prefix_le(xts: Seq<Extrinsic>, i: int, who: Seq<char>)
    requires
        0 <= i <= xts.len(),
    ensures
        authored_count(xts.subrange(0, i), who) <= authored_count(xts, who),
    decreases xts.len() - i,
{
    if i == xts.len() {
        assert(xts.subrange(0, i) =~= xts);
    } else {
        lemma_authored_count_step(xts, i, who);
        lemma_authored_count_prefix_le(xts, i + 1, who);
    }
}

/// Dispatching a call never changes any nonce: raising nonces is the
/// executor's job alone.
pub proof fn lemma_apply_call_preserves_nonces(s: StateView, caller: Seq<char>, call: RuntimeCall)
    ensures
        apply_call(s, caller, call).0.nonces == s.nonces,
{
}

/// Law: after executing a sequence of extrinsics, each account's nonce has
/// risen by exactly the number of extrinsics that account authored, whether
/// or not each of those dispatches succeeded.
pub proof fn lemma_nonce_progression(s: StateView, xts: Seq<Extrinsic>)
    requires
        forall|a: Seq<char>| nonce_in(s.nonces, a) + authored_count(xts, a) <= u32::MAX,
    ensures
        forall|a: Seq<char>|
            #[trigger] nonce_in(apply_extrinsics(s, xts).nonces, a) == nonce_in(s.nonces, a)
                + authored_count(xts, a),
    decreases xts.len(),
{
    if xts.len() == 0 {
    } else {
        let prefix = xts.drop_last();
        let xt = xts.last();
        assert forall|a: Seq<char>|
            nonce_in(s.nonces, a) + authored_count(prefix, a) <= u32::MAX by {
            assert(authored_count(prefix, a) <= authored_count(xts, a));
        }
        lemma_nonce_progression(s, prefix);
        let sp = apply_extrinsics(s, prefix);
        lemma_apply_call_preserves_nonces(bump_nonce(sp, xt.caller@), xt.caller@, xt.call);
        assert(apply_extrinsics(s, xts).nonces == bump_nonce(sp, xt.caller@).nonces);
        assert forall|a: Seq<char>|
            #[trigger] nonce_in(apply_extrinsics(s, xts).nonces, a) == nonce_in(s.nonces, a)
                + authored_count(xts, a) by {
            assert(nonce_in(sp.nonces, a) == nonce_in(s.nonces, a) + authored_count(prefix, a));
            if a == xt.caller@ {
                assert(authored_count(xts, a) == authored_count(prefix, a) + 1);
                assert(nonce_in(s.nonces, a) + authored_count(xts, a) <= u32::MAX);
                assert(nonce_in(bump_nonce(sp, xt.caller@).nonces, a) == (nonce_in(sp.nonces, a)
                    + 1) as u32);
            } else {
                assert(authored_count(xts, a) == authored_count(prefix, a));
                assert(nonce_in(bump_nonce(sp, xt.caller@).nonces, a) == nonce_in(sp.nonces, a));
            }
        }
    }
}

} // verus!
