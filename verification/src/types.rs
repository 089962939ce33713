//! The concrete types the runtime is built over.

use vstd::prelude::*;

verus! {

/// The name of an account.
pub type AccountId = String;

/// An amount of funds.
pub type Balance = u128;

/// The height of a block.
pub type BlockNumber = u32;

/// The number of extrinsics an account has submitted.
pub type Nonce = u32;

/// The identifier of a piece of content that can be claimed.
pub type Content = String;

/// An extrinsic of this runtime.
pub type Extrinsic = crate::support::Extrinsic<AccountId, crate::runtime::RuntimeCall>;

/// A block header of this runtime.
pub type Header = crate::support::Header<BlockNumber>;

/// A block of this runtime.
pub type Block = crate::support::Block<Header, Extrinsic>;

} // verus!
