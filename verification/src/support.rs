use vstd::prelude::*;

verus! {

/// One caller-attributed operation submitted for inclusion in a block.
pub struct Extrinsic<Caller, Call> {
    pub caller: Caller,
    pub call: Call,
}

/// A block header: it carries the number the block claims to have.
pub struct Header<BlockNumber> {
    pub block_number: BlockNumber,
}

/// A block: a header plus an ordered sequence of extrinsics.
pub struct Block<Header, Extrinsic> {
    pub header: Header,
    pub extrinsics: Vec<Extrinsic>,
}

/// Why a single extrinsic was rejected by the module it was routed to.
#[derive(Clone, Copy, PartialEq, Eq, Debug)]
pub enum DispatchError {
    /// A transfer asked for more than the caller holds.
    InsufficientBalance,
    /// Crediting the recipient would exceed the largest representable balance.
    Overflow,
    /// The content is already claimed by some account.
    AlreadyClaimed,
    /// The content is not claimed by anyone.
    NoSuchClaim,
    /// The caller is not the current owner of the claim.
    NotClaimOwner,
}

/// The result of routing one call to its module.
pub type DispatchResult = Result<(), DispatchError>;

/// Why a whole block was rejected before any of its extrinsics ran.
#[derive(Clone, Copy, PartialEq, Eq, Debug)]
pub enum BlockError {
    /// The header's number is not exactly one past the previous block number.
    BlockNumberMismatch,
}

/// A report entry for one failed extrinsic: failures never abort the block,
/// they are collected and handed back to the caller of the executor.
#[derive(Clone, Copy, PartialEq, Eq, Debug)]
pub struct ExtrinsicFailure {
    pub block_number: u32,
    pub index: usize,
    pub error: DispatchError,
}

} // verus!
