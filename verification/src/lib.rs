//! A minimal deterministic state-transition function for a ledger:
//! caller-attributed operations ("extrinsics"), grouped into blocks, are
//! routed through one
//! generic dispatch mechanism to three registries — account bookkeeping, a
//! fungible-balance ledger and a claim registry — with per-extrinsic
//! failures isolated and reported rather than aborting the block.

pub mod balances;
pub mod model;
pub mod proof_of_existence;
pub mod support;
pub mod system;

use vstd::prelude::*;

use crate::model::{
    apply_call, apply_extrinsics, authored_count, failure_reports, StateView,
};
use crate::support::{BlockError, DispatchResult, ExtrinsicFailure};

verus! {

pub type AccountId = String;

pub type Balance = u128;

pub type BlockNumber = u32;

pub type Nonce = u32;

pub type Content = String;

pub type Extrinsic = support::Extrinsic<AccountId, RuntimeCall>;

pub type Header = support::Header<BlockNumber>;

pub type Block = support::Block<Header, Extrinsic>;

/// The closed set of operations an extrinsic may carry: one variant per
/// module, each wrapping that module's own calls.
pub enum RuntimeCall {
    Balances(balances::Call),
    ProofOfExistence(proof_of_existence::Call),
}

/// The whole runtime: the three registries under one exclusive owner,
/// mutated in place by block execution and by nothing else.
pub struct Runtime {
    pub system: system::Pallet,
    pub balances: balances::Pallet,
    pub poe: proof_of_existence::Pallet,
}

impl View for Runtime {
    type V = StateView;

    open spec fn view(&self) -> StateView {
        StateView {
            nonces: self.system.nonce@,
            balances: self.balances@,
            claims: self.poe@,
        }
    }
}

impl Runtime {
    /// A fresh runtime: block height 0 and all three registries empty.
    pub fn new() -> (r: Self)
        ensures
            r.system.block_number == 0,
            r@.nonces == Map::<Seq<char>, u32>::empty(),
            r@.balances == Map::<Seq<char>, u128>::empty(),
            r@.claims == Map::<Seq<char>, Seq<char>>::empty(),
    {
        Runtime {
            system: system::Pallet::new(),
            balances: balances::Pallet::new(),
            poe: proof_of_existence::Pallet::new(),
        }
    }

    /// Route one call to the module it names, on behalf of `caller`.
    /// Routing is transparent: the outcome is exactly the module's outcome,
    /// and neither the block height nor any nonce moves here.
    pub fn dispatch(&mut self, caller: AccountId, runtime_call: RuntimeCall) -> (r: DispatchResult)
        ensures
            final(self).system == old(self).system,
            ({
                let (s, res) = apply_call(old(self)@, caller@, runtime_call);
                final(self)@ == s && r == res
            }),
    {
        match runtime_call {
            RuntimeCall::Balances(call) => self.balances.dispatch(caller, call),
            RuntimeCall::ProofOfExistence(call) => self.poe.dispatch(caller, call),
        }
    }

    /// Execute one block. The block height moves up by one first,
    /// unconditionally — it is not rolled back when the header's number then
    /// turns out wrong. A wrong header number rejects the whole block with
    /// nothing dispatched; otherwise every extrinsic runs in order, each one
    /// raising its caller's nonce before dispatch, and a failed dispatch is
    /// recorded in the returned report instead of aborting the block.
    pub fn execute_block(&mut self, block: Block) -> (r: Result<Vec<ExtrinsicFailure>, BlockError>)
        requires
            old(self).system.block_number < u32::MAX,
            block.header.block_number == old(self).system.block_number + 1 ==> forall|a: Seq<char>|
                system::nonce_in(old(self)@.nonces, a) + authored_count(block.extrinsics@, a)
                    <= u32::MAX,
        ensures
            final(self).system.block_number == old(self).system.block_number + 1,
            match r {
                Ok(failures) => block.header.block_number == old(self).system.block_number + 1
                    && final(self)@ == apply_extrinsics(old(self)@, block.extrinsics@)
                    && failures@ == failure_reports(
                    old(self)@,
                    block.extrinsics@,
                    block.header.block_number,
                ) && forall|a: Seq<char>|
                    #[trigger] final(self).system.nonce_of(a) == old(self).system.nonce_of(a)
                        + authored_count(block.extrinsics@, a),
                Err(e) => block.header.block_number != old(self).system.block_number + 1 && e
                    == BlockError::BlockNumberMismatch && final(self)@ == old(self)@,
            },
    {
        self.system.inc_block_number();
        if self.system.block_number() != block.header.block_number {
            return Err(BlockError::BlockNumberMismatch);
        }
        let header_number = block.header.block_number;
        let mut extrinsics = block.extrinsics;
        let ghost s0 = self@;
        let ghost xts = extrinsics@;
        let n = extrinsics.len();
        let mut failures: Vec<ExtrinsicFailure> = Vec::new();
        let mut i: usize = 0;
        while i < n
            invariant
                i <= n,
                n == xts.len(),
                extrinsics@ == xts.subrange(i as int, n as int),
                self.system.block_number == old(self).system.block_number + 1,
                header_number == old(self).system.block_number + 1,
                s0 == old(self)@,
                self@ == apply_extrinsics(s0, xts.subrange(0, i as int)),
                failures@ == failure_reports(s0, xts.subrange(0, i as int), header_number),
                forall|a: Seq<char>|
                    system::nonce_in(s0.nonces, a) + authored_count(xts, a) <= u32::MAX,
            decreases n - i,
        {
            let ghost pre = self@;
            proof {
                assert(extrinsics@[0] == xts[i as int]);
                model::lemma_authored_count_step(xts, i as int, xts[i as int].caller@);
                model::lemma_authored_count_prefix_le(xts, i as int + 1, xts[i as int].caller@);
                assert forall|a: Seq<char>|
                    system::nonce_in(s0.nonces, a) + authored_count(
                        xts.subrange(0, i as int),
                        a,
                    ) <= u32::MAX by {
                    model::lemma_authored_count_prefix_le(xts, i as int, a);
                }
                model::lemma_nonce_progression(s0, xts.subrange(0, i as int));
            }
            let xt = extrinsics.remove(0);
            proof {
                assert(extrinsics@ =~= xts.subrange(i as int + 1, n as int));
            }
            let support::Extrinsic { caller, call } = xt;
            self.system.inc_nonce(&caller);
            proof {
                assert(self@ =~= model::bump_nonce(pre, caller@));
            }
            let res = self.dispatch(caller, call);
            proof {
                assert(xts.subrange(0, i as int + 1).drop_last() =~= xts.subrange(0, i as int));
                assert(xts.subrange(0, i as int + 1).last() == xts[i as int]);
                assert(self@ == apply_extrinsics(s0, xts.subrange(0, i as int + 1)));
                assert(res == model::apply_extrinsic(pre, xts[i as int]).1);
            }
            if let Err(e) = res {
                failures.push(
                    ExtrinsicFailure { block_number: header_number, index: i, error: e },
                );
            }
            i = i + 1;
        }
        proof {
            assert(xts.subrange(0, n as int) =~= xts);
            model::lemma_nonce_progression(s0, xts);
            assert forall|a: Seq<char>|
                #[trigger] self.system.nonce_of(a) == old(self).system.nonce_of(a)
                    + authored_count(xts, a) by {
                assert(system::nonce_in(apply_extrinsics(s0, xts).nonces, a) == system::nonce_in(
                    s0.nonces,
                    a,
                ) + authored_count(xts, a));
            }
        }
        Ok(failures)
    }
}

} // verus!
