//! Shared containers for block execution: the error taxonomy, the
//! block/extrinsic types handed to the runtime, and the uniform dispatch
//! interface every state module implements.

use vstd::prelude::*;

verus! {

/// The closed set of failures a module operation or the block executor
/// can report. Errors are named result values, never panics.
#[derive(Clone, Copy, Debug, PartialEq, Eq, Structural)]
pub enum ErrorKind {
    /// A transfer would drive the sender's balance below zero.
    InsufficientBalance,
    /// A transfer would push the recipient's balance past the type's range.
    BalanceOverflow,
    /// A claim with the same content is already registered.
    ClaimAlreadyExists,
    /// The claim to revoke is not registered.
    ClaimNotFound,
    /// The claim to revoke is owned by a different account.
    NotClaimOwner,
    /// A block's header does not carry the expected block number.
    BlockNumberMismatch,
}

/// The outcome of dispatching a single operation, or of executing a block.
pub type DispatchResult = Result<(), ErrorKind>;

/// A block header: the block number the producer expects this block to be
/// executed at.
#[derive(Debug)]
pub struct Header<BlockNumber> {
    pub block_number: BlockNumber,
}

/// A signed operation: the caller it is attributed to, paired with the
/// module call to perform on the caller's behalf.
#[derive(Debug)]
pub struct Extrinsic<Caller, Call> {
    pub caller: Caller,
    pub call: Call,
}

/// A block: a header plus the ordered extrinsics to dispatch.
#[derive(Debug)]
pub struct Block<Header, Extrinsic> {
    pub header: Header,
    pub extrinsics: Vec<Extrinsic>,
}

/// The uniform invocation surface of a state module: apply one call on
/// behalf of `caller`, mutating only the module's own state, with
/// all-or-nothing semantics for that single call.
pub trait Dispatch {
    type Caller;
    type Call;

    fn dispatch(&mut self, caller: Self::Caller, call: Self::Call) -> DispatchResult;
}

} // verus!
