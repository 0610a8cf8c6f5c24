//! Tokenization of physical or digital assets as non-fungible tokens, each
//! carrying a reference to an off-chain legal contract (a URI and a hash).
//!
//! `types` holds the values the pallet stores and reports, `spec` the
//! mathematical model of the pallet's state and calls, `pallet` the
//! executable pallet proved against that model, and `laws` the properties
//! that hold across calls.
pub mod types;
pub mod spec;
pub mod pallet;
pub mod laws;

pub use pallet::Pallet;
pub use types::{
    ensure_signed, hash_is_zero, AccountId, AssetId, AssetInfo, AssetName, AssetType, BlockNumber,
    BoundedBytes, ContractHash, ContractUri, DispatchError, Error, Event, Origin, MAX_NAME_LEN,
    MAX_URI_LEN,
};
