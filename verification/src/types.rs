use vstd::prelude::*;

verus! {

/// Identifies an account of the chain.
pub type AccountId = u64;

/// Height of a block.
pub type BlockNumber = u64;

/// Identifies a tokenized asset.
pub type AssetId = u64;

/// SHA-256 hash of an off-chain contract.
pub type ContractHash = [u8; 32];

/// Longest asset name, in bytes.
pub const MAX_NAME_LEN: usize = 64;

/// Longest contract URI, in bytes.
pub const MAX_URI_LEN: usize = 256;

/// A byte string of at most `N` bytes.
pub struct BoundedBytes<const N: usize> {
    bytes: Vec<u8>,
}

impl<const N: usize> View for BoundedBytes<N> {
    type V = Seq<u8>;

    closed spec fn view(&self) -> Seq<u8> {
        self.bytes@
    }
}

impl<const N: usize> BoundedBytes<N> {
    /// The bound: at most `N` bytes.
    #[verifier::type_invariant]
    pub open spec fn within_bound(self) -> bool {
        self@.len() <= N
    }

    /// Takes `bytes` when it holds at most `N` bytes, and hands it back
    /// unchanged otherwise.
    pub fn try_from(bytes: Vec<u8>) -> (result: Result<Self, Vec<u8>>)
        ensures
            bytes@.len() <= N <==> result is Ok,
            match result {
                Ok(b) => b@ == bytes@,
                Err(v) => v@ == bytes@,
            },
    {
        if bytes.len() <= N {
            Ok(BoundedBytes { bytes })
        } else {
            Err(bytes)
        }
    }

    /// The bytes held.
    pub fn as_slice(&self) -> (s: &[u8])
        ensures
            s@ == self@,
    {
        self.bytes.as_slice()
    }

    /// Number of bytes held.
    pub fn len(&self) -> (n: usize)
        ensures
            n == self@.len(),
            n <= N,
    {
        proof {
            use_type_invariant(self);
        }
        self.bytes.len()
    }
}

/// Human-readable name of an asset.
pub type AssetName = BoundedBytes<MAX_NAME_LEN>;

/// IPFS URI of an off-chain legal contract.
pub type ContractUri = BoundedBytes<MAX_URI_LEN>;

/// Classifies whether an asset is physical (e.g. real estate) or digital (e.g. software).
#[derive(Clone, Copy, Debug, PartialEq, Eq, Structural)]
pub enum AssetType {
    Physical,
    Digital,
}

/// All metadata associated with a tokenized asset.
pub struct AssetInfo {
    /// Human-readable name (max 64 bytes).
    pub name: AssetName,
    /// Whether the underlying asset is physical or digital.
    pub asset_type: AssetType,
    /// IPFS URI pointing to the off-chain legal contract (max 256 bytes).
    pub contract_uri: ContractUri,
    /// SHA-256 hash of the off-chain contract, used for integrity verification.
    pub contract_hash: ContractHash,
    /// Whether this token has a fungible supply.
    pub is_fungible: bool,
    /// Total supply when `is_fungible` is true.
    pub fungible_supply: Option<u128>,
    /// Account that originally minted the asset.
    pub creator: AccountId,
    /// Block at which the asset was created.
    pub created_at: BlockNumber,
}

/// The metadata of an asset, with its byte strings as sequences.
pub struct AssetInfoView {
    pub name: Seq<u8>,
    pub asset_type: AssetType,
    pub contract_uri: Seq<u8>,
    pub contract_hash: ContractHash,
    pub is_fungible: bool,
    pub fungible_supply: Option<u128>,
    pub creator: AccountId,
    pub created_at: BlockNumber,
}

impl View for AssetInfo {
    type V = AssetInfoView;

    open spec fn view(&self) -> AssetInfoView {
        AssetInfoView {
            name: self.name@,
            asset_type: self.asset_type,
            contract_uri: self.contract_uri@,
            contract_hash: self.contract_hash,
            is_fungible: self.is_fungible,
            fungible_supply: self.fungible_supply,
            creator: self.creator,
            created_at: self.created_at,
        }
    }
}

/// What the pallet reports of a successful call.
#[derive(Clone, Copy, Debug, PartialEq, Eq)]
pub enum Event {
    /// A new asset was minted.
    AssetMinted { asset_id: AssetId, owner: AccountId, contract_hash: ContractHash },
    /// An account signed the contract attached to an asset.
    ContractSigned { asset_id: AssetId, signer: AccountId, block: BlockNumber },
    /// The contract URI / hash for an asset was updated.
    ContractUpdated { asset_id: AssetId, new_hash: ContractHash },
    /// An asset's metadata was frozen; no further updates are possible.
    AssetFrozen { asset_id: AssetId },
    /// Ownership of an asset was transferred.
    AssetTransferred { asset_id: AssetId, from: AccountId, to: AccountId },
}

/// The sender of a call.
#[derive(Clone, Copy, Debug, PartialEq, Eq, Structural)]
pub enum Origin {
    /// The chain itself.
    Root,
    /// A call signed by an account.
    Signed(AccountId),
    /// An unsigned call.
    Unsigned,
}

impl Origin {
    /// A call signed by `who`.
    pub fn signed(who: AccountId) -> (o: Origin)
        ensures
            o == Origin::Signed(who),
    {
        Origin::Signed(who)
    }
}

/// Errors of the pallet.
#[derive(Clone, Copy, Debug, PartialEq, Eq, Structural)]
pub enum Error {
    /// No asset exists with the given ID.
    AssetNotFound,
    /// The caller is not the owner of the asset.
    NotAssetOwner,
    /// The asset metadata is frozen and cannot be modified.
    AssetIsFrozen,
    /// The caller has already signed this asset's contract.
    AlreadySigned,
    /// The provided contract hash is invalid (all-zero hashes are rejected).
    InvalidContractHash,
    /// Transfer blocked: the current owner must sign the contract before
    /// ownership can be transferred.
    ContractNotSigned,
    /// `fungible_supply` must be `Some` when `is_fungible` is `true`, and
    /// `None` when `is_fungible` is `false`.
    InconsistentFungibleSupply,
}

/// Why a call was refused.
#[derive(Clone, Copy, Debug, PartialEq, Eq, Structural)]
pub enum DispatchError {
    /// The origin is not a signed account.
    BadOrigin,
    /// An error of the pallet.
    Module(Error),
}

/// What a signed origin was signed by, if it is signed.
pub open spec fn signer(origin: Origin) -> Option<AccountId> {
    match origin {
        Origin::Signed(who) => Some(who),
        _ => None,
    }
}

/// The account that signed `origin`; `BadOrigin` for any other origin.
pub fn ensure_signed(origin: Origin) -> (result: Result<AccountId, DispatchError>)
    ensures
        match signer(origin) {
            Some(who) => result == Ok::<AccountId, DispatchError>(who),
            None => result == Err::<AccountId, DispatchError>(DispatchError::BadOrigin),
        },
{
    match origin {
        Origin::Signed(who) => Ok(who),
        _ => Err(DispatchError::BadOrigin),
    }
}

/// Whether every byte of `hash` is zero.
pub open spec fn is_zero_hash(hash: Seq<u8>) -> bool {
    forall|i: int| 0 <= i < hash.len() ==> hash[i] == 0
}

/// Whether every byte of `hash` is zero.
pub fn hash_is_zero(hash: &ContractHash) -> (zero: bool)
    ensures
        zero == is_zero_hash(hash@),
{
    let mut i: usize = 0;
    while i < 32
        invariant
            i <= 32,
            hash@.len() == 32,
            forall|j: int| 0 <= j < i ==> hash@[j] == 0,
        decreases 32 - i,
    {
        if hash[i] != 0 {
            return false;
        }
        i = i + 1;
    }
    true
}

} // verus!
