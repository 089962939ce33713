//! What the pallets and the runtime share: the reasons an extrinsic or a block
//! can fail, the capability to dispatch a call, and the shape of a block.

use vstd::prelude::*;

verus! {

/// Why an extrinsic failed. The extrinsic then changed nothing but its
/// caller's nonce, and its block went on.
#[derive(Clone, Copy, Debug, PartialEq, Eq, Structural)]
pub enum DispatchError {
    /// The sender holds less than the amount to transfer.
    InsufficientFunds,
    /// The receiver's balance would exceed what a balance can hold.
    BalanceOverflow,
    /// The content already has an owner.
    AlreadyClaimed,
    /// The content has no owner.
    ClaimNotFound,
    /// The caller does not own the content.
    NotOwner,
}

/// Why a whole block was refused. None of its extrinsics was attempted.
#[derive(Clone, Copy, Debug, PartialEq, Eq, Structural)]
pub enum BlockError {
    /// The block's declared number is not the next height.
    InvalidBlockNumber,
}

/// The outcome of an operation that changes state.
pub type DispatchResult = Result<(), DispatchError>;

impl DispatchError {
    /// The characters of the reason as a reader sees it.
    pub open spec fn spec_message(self) -> Seq<char> {
        match self {
            DispatchError::InsufficientFunds => "Not Enough Funds."@,
            DispatchError::BalanceOverflow => "Overflow Balance."@,
            DispatchError::AlreadyClaimed => "this content is already claimed"@,
            DispatchError::ClaimNotFound => "Claim does not exist"@,
            DispatchError::NotOwner => "Claim does belong to caller"@,
        }
    }

    /// The reason as a reader sees it.
    pub fn message(&self) -> (s: &'static str)
        ensures
            s@ == self.spec_message(),
    {
        match self {
            DispatchError::InsufficientFunds => "Not Enough Funds.",
            DispatchError::BalanceOverflow => "Overflow Balance.",
            DispatchError::AlreadyClaimed => "this content is already claimed",
            DispatchError::ClaimNotFound => "Claim does not exist",
            DispatchError::NotOwner => "Claim does belong to caller",
        }
    }
}

impl BlockError {
    /// The characters of the reason as a reader sees it.
    pub open spec fn spec_message(self) -> Seq<char> {
        match self {
            BlockError::InvalidBlockNumber => "Invalid block number"@,
        }
    }

    /// The reason as a reader sees it.
    pub fn message(&self) -> (s: &'static str)
        ensures
            s@ == self.spec_message(),
    {
        match self {
            BlockError::InvalidBlockNumber => "Invalid block number",
        }
    }
}

/// The capability to carry out a call on behalf of a caller. Each pallet has
/// it for its own calls, and the runtime for all of them.
pub trait Dispatch {
    /// Who can ask.
    type Caller;

    /// What can be asked.
    type Call;

    /// Carries out `call` on behalf of `caller`, or says why it could not.
    fn dispatch(&mut self, caller: Self::Caller, call: Self::Call) -> DispatchResult;
}

/// The header of a block: the height the block claims for itself.
#[derive(Debug)]
pub struct Header<BlockNumber> {
    pub block_number: BlockNumber,
}

/// One operation submitted from outside: who asks, and for what.
#[derive(Debug)]
pub struct Extrinsic<Caller, Call> {
    pub caller: Caller,
    pub call: Call,
}

/// A header and the extrinsics to carry out under it, in order.
#[derive(Debug)]
pub struct Block<Header, Extrinsic> {
    pub header: Header,
    pub extrinsics: Vec<Extrinsic>,
}

} // verus!
