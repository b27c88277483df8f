//! A claim registry: records which account first registered a content hash,
//! and at which block, until that account gives the claim up.

pub mod lemmas;
pub mod pallet;
pub mod weights;

pub use pallet::{
    AccountId, BlockNumber, ClaimId, ClaimRecord, Config, Error, Event, InMemoryRuntime, Pallet,
};
pub use weights::SubstrateWeight;
