use vstd::prelude::*;

use crate::types::{
    is_zero_hash, signer, AccountId, AssetId, AssetInfoView, AssetType, BlockNumber, ContractHash,
    DispatchError, Error, Event, Origin, MAX_NAME_LEN, MAX_URI_LEN,
};

verus! {

/// The storage of the pallet together with the part of the system state
/// that its calls read (the current block) and write (the event record).
pub struct PalletState {
    /// The ID the next minted asset receives.
    pub next_asset_id: AssetId,
    /// The metadata of each asset.
    pub assets: Map<AssetId, AssetInfoView>,
    /// The current owner of each asset.
    pub owners: Map<AssetId, AccountId>,
    /// For each asset and account that signed its contract, the block of the signature.
    pub signatures: Map<(AssetId, AccountId), u64>,
    /// The frozen flag of each asset for which one was recorded.
    pub frozen: Map<AssetId, bool>,
    /// The current block.
    pub block_number: BlockNumber,
    /// The events deposited so far, oldest first.
    pub events: Seq<Event>,
}

/// A dispatchable call of the pallet, with its arguments taken as plain values.
pub enum Call {
    MintAsset {
        name: Seq<u8>,
        asset_type: AssetType,
        contract_uri: Seq<u8>,
        contract_hash: ContractHash,
        is_fungible: bool,
        fungible_supply: Option<u128>,
    },
    SignContract { asset_id: AssetId },
    UpdateContract { asset_id: AssetId, new_contract_uri: Seq<u8>, new_contract_hash: ContractHash },
    FreezeAsset { asset_id: AssetId },
    TransferAsset { asset_id: AssetId, to: AccountId },
}

/// The byte strings of `call` are within the bounds their types impose.
pub open spec fn call_within_bounds(call: Call) -> bool {
    match call {
        Call::MintAsset { name, contract_uri, .. } => name.len() <= MAX_NAME_LEN
            && contract_uri.len() <= MAX_URI_LEN,
        Call::UpdateContract { new_contract_uri, .. } => new_contract_uri.len() <= MAX_URI_LEN,
        _ => true,
    }
}

/// An asset record as minting and updating leave it: bounded byte strings,
/// a non-zero contract hash, and a supply given exactly for fungible assets.
pub open spec fn asset_valid(info: AssetInfoView) -> bool {
    &&& info.name.len() <= MAX_NAME_LEN
    &&& info.contract_uri.len() <= MAX_URI_LEN
    &&& !is_zero_hash(info.contract_hash@)
    &&& info.is_fungible == (info.fungible_supply is Some)
}

/// Why minting is refused, checked in this order, or `None` when it goes ahead.
pub open spec fn mint_check(
    origin: Origin,
    contract_hash: ContractHash,
    is_fungible: bool,
    fungible_supply: Option<u128>,
) -> Option<DispatchError> {
    if signer(origin) is None {
        Some(DispatchError::BadOrigin)
    } else if is_zero_hash(contract_hash@) {
        Some(DispatchError::Module(Error::InvalidContractHash))
    } else if is_fungible != (fungible_supply is Some) {
        Some(DispatchError::Module(Error::InconsistentFungibleSupply))
    } else {
        None
    }
}

impl PalletState {
    /// The state before any call: no asset, ID counter at zero.
    pub open spec fn genesis() -> PalletState {
        PalletState {
            next_asset_id: 0,
            assets: Map::empty(),
            owners: Map::empty(),
            signatures: Map::empty(),
            frozen: Map::empty(),
            block_number: 0,
            events: Seq::empty(),
        }
    }

    /// Whether the metadata of `asset_id` is frozen (absent flags read as `false`).
    pub open spec fn is_frozen(self, asset_id: AssetId) -> bool {
        self.frozen.contains_key(asset_id) && self.frozen[asset_id]
    }

    /// Whether `who` has signed the contract of `asset_id`.
    pub open spec fn has_signed(self, asset_id: AssetId, who: AccountId) -> bool {
        self.signatures.contains_key((asset_id, who))
    }

    /// Whether `who` owns `asset_id`.
    pub open spec fn is_owner(self, asset_id: AssetId, who: AccountId) -> bool {
        self.owners.contains_key(asset_id) && self.owners[asset_id] == who
    }

    /// The invariant the calls keep: assets and owners are recorded for the
    /// same IDs, frozen flags and signatures only for existing assets, each
    /// asset's ID was handed out by the counter, and each record is valid.
    pub open spec fn wf(self) -> bool {
        &&& forall|id: AssetId| #[trigger]
            self.assets.contains_key(id) <==> self.owners.contains_key(id)
        &&& forall|id: AssetId| #[trigger]
            self.frozen.contains_key(id) ==> self.assets.contains_key(id) && self.frozen[id]
        &&& forall|k: (AssetId, AccountId)| #[trigger]
            self.signatures.contains_key(k) ==> self.assets.contains_key(k.0)
        &&& forall|id: AssetId| #[trigger]
            self.assets.contains_key(id) ==> id < self.next_asset_id || id == self.next_asset_id
                == u64::MAX
        &&& forall|id: AssetId| #[trigger]
            self.assets.contains_key(id) ==> asset_valid(self.assets[id])
    }

    /// The state and result of a call: unchanged with the error that `check`
    /// gives, or `next` when `check` gives none.
    pub open spec fn outcome(self, check: Option<DispatchError>, next: PalletState) -> (
        PalletState,
        Result<(), DispatchError>,
    ) {
        match check {
            Some(e) => (self, Err(e)),
            None => (next, Ok(())),
        }
    }

    /// The record that minting by `who` stores.
    pub open spec fn minted_info(
        self,
        who: AccountId,
        name: Seq<u8>,
        asset_type: AssetType,
        contract_uri: Seq<u8>,
        contract_hash: ContractHash,
        is_fungible: bool,
        fungible_supply: Option<u128>,
    ) -> AssetInfoView {
        AssetInfoView {
            name,
            asset_type,
            contract_uri,
            contract_hash,
            is_fungible,
            fungible_supply,
            creator: who,
            created_at: self.block_number,
        }
    }

    /// After minting `info` for `who`: stored under the counter's ID with `who`
    /// as owner, the counter advanced (saturating), the event deposited.
    pub open spec fn after_mint(self, who: AccountId, info: AssetInfoView) -> PalletState {
        let id = self.next_asset_id;
        PalletState {
            next_asset_id: if id < u64::MAX {
                (id + 1) as u64
            } else {
                id
            },
            assets: self.assets.insert(id, info),
            owners: self.owners.insert(id, who),
            events: self.events.push(
                Event::AssetMinted { asset_id: id, owner: who, contract_hash: info.contract_hash },
            ),
            ..self
        }
    }

    /// Minting an asset.
    pub open spec fn mint_asset(
        self,
        origin: Origin,
        name: Seq<u8>,
        asset_type: AssetType,
        contract_uri: Seq<u8>,
        contract_hash: ContractHash,
        is_fungible: bool,
        fungible_supply: Option<u128>,
    ) -> (PalletState, Result<(), DispatchError>) {
        let who = signer(origin).unwrap();
        self.outcome(
            mint_check(origin, contract_hash, is_fungible, fungible_supply),
            self.after_mint(
                who,
                self.minted_info(
                    who,
                    name,
                    asset_type,
                    contract_uri,
                    contract_hash,
                    is_fungible,
                    fungible_supply,
                ),
            ),
        )
    }

    /// Why signing is refused, checked in this order, or `None` when it goes ahead.
    pub open spec fn sign_check(self, origin: Origin, asset_id: AssetId) -> Option<DispatchError> {
        if signer(origin) is None {
            Some(DispatchError::BadOrigin)
        } else if !self.assets.contains_key(asset_id) {
            Some(DispatchError::Module(Error::AssetNotFound))
        } else if self.is_frozen(asset_id) {
            Some(DispatchError::Module(Error::AssetIsFrozen))
        } else if self.has_signed(asset_id, signer(origin).unwrap()) {
            Some(DispatchError::Module(Error::AlreadySigned))
        } else {
            None
        }
    }

    /// After `who` signs: the current block recorded, the event deposited.
    pub open spec fn after_sign(self, who: AccountId, asset_id: AssetId) -> PalletState {
        PalletState {
            signatures: self.signatures.insert((asset_id, who), self.block_number),
            events: self.events.push(
                Event::ContractSigned { asset_id, signer: who, block: self.block_number },
            ),
            ..self
        }
    }

    /// Signing the contract of an asset.
    pub open spec fn sign_contract(self, origin: Origin, asset_id: AssetId) -> (
        PalletState,
        Result<(), DispatchError>,
    ) {
        self.outcome(
            self.sign_check(origin, asset_id),
            self.after_sign(signer(origin).unwrap(), asset_id),
        )
    }

    /// Why updating is refused, checked in this order, or `None` when it goes ahead.
    pub open spec fn update_check(
        self,
        origin: Origin,
        asset_id: AssetId,
        new_contract_hash: ContractHash,
    ) -> Option<DispatchError> {
        if signer(origin) is None {
            Some(DispatchError::BadOrigin)
        } else if is_zero_hash(new_contract_hash@) {
            Some(DispatchError::Module(Error::InvalidContractHash))
        } else if self.is_frozen(asset_id) {
            Some(DispatchError::Module(Error::AssetIsFrozen))
        } else if !self.owners.contains_key(asset_id) {
            Some(DispatchError::Module(Error::AssetNotFound))
        } else if self.owners[asset_id] != signer(origin).unwrap() {
            Some(DispatchError::Module(Error::NotAssetOwner))
        } else if !self.assets.contains_key(asset_id) {
            Some(DispatchError::Module(Error::AssetNotFound))
        } else {
            None
        }
    }

    /// After updating: the asset's URI and hash replaced, the event deposited.
    pub open spec fn after_update(
        self,
        asset_id: AssetId,
        new_contract_uri: Seq<u8>,
        new_contract_hash: ContractHash,
    ) -> PalletState {
        PalletState {
            assets: self.assets.insert(
                asset_id,
                AssetInfoView {
                    contract_uri: new_contract_uri,
                    contract_hash: new_contract_hash,
                    ..self.assets[asset_id]
                },
            ),
            events: self.events.push(Event::ContractUpdated { asset_id, new_hash: new_contract_hash }),
            ..self
        }
    }

    /// Updating the contract of an asset.
    pub open spec fn update_contract(
        self,
        origin: Origin,
        asset_id: AssetId,
        new_contract_uri: Seq<u8>,
        new_contract_hash: ContractHash,
    ) -> (PalletState, Result<(), DispatchError>) {
        self.outcome(
            self.update_check(origin, asset_id, new_contract_hash),
            self.after_update(asset_id, new_contract_uri, new_contract_hash),
        )
    }

    /// Why freezing is refused, checked in this order, or `None` when it goes ahead.
    pub open spec fn freeze_check(self, origin: Origin, asset_id: AssetId) -> Option<DispatchError> {
        if signer(origin) is None {
            Some(DispatchError::BadOrigin)
        } else if !self.assets.contains_key(asset_id) {
            Some(DispatchError::Module(Error::AssetNotFound))
        } else if !self.owners.contains_key(asset_id) {
            Some(DispatchError::Module(Error::AssetNotFound))
        } else if self.owners[asset_id] != signer(origin).unwrap() {
            Some(DispatchError::Module(Error::NotAssetOwner))
        } else if self.is_frozen(asset_id) {
            Some(DispatchError::Module(Error::AssetIsFrozen))
        } else {
            None
        }
    }

    /// After freezing: the flag set, the event deposited.
    pub open spec fn after_freeze(self, asset_id: AssetId) -> PalletState {
        PalletState {
            frozen: self.frozen.insert(asset_id, true),
            events: self.events.push(Event::AssetFrozen { asset_id }),
            ..self
        }
    }

    /// Freezing the metadata of an asset.
    pub open spec fn freeze_asset(self, origin: Origin, asset_id: AssetId) -> (
        PalletState,
        Result<(), DispatchError>,
    ) {
        self.outcome(self.freeze_check(origin, asset_id), self.after_freeze(asset_id))
    }

    /// Why a transfer is refused, checked in this order, or `None` when it goes ahead.
    pub open spec fn transfer_check(self, origin: Origin, asset_id: AssetId) -> Option<
        DispatchError,
    > {
        if signer(origin) is None {
            Some(DispatchError::BadOrigin)
        } else if !self.assets.contains_key(asset_id) {
            Some(DispatchError::Module(Error::AssetNotFound))
        } else if !self.owners.contains_key(asset_id) {
            Some(DispatchError::Module(Error::AssetNotFound))
        } else if self.owners[asset_id] != signer(origin).unwrap() {
            Some(DispatchError::Module(Error::NotAssetOwner))
        } else if !self.has_signed(asset_id, signer(origin).unwrap()) {
            Some(DispatchError::Module(Error::ContractNotSigned))
        } else {
            None
        }
    }

    /// After a transfer from `from` to `to`: `to` owns the asset, the event deposited.
    pub open spec fn after_transfer(self, asset_id: AssetId, from: AccountId, to: AccountId) -> PalletState {
        PalletState {
            owners: self.owners.insert(asset_id, to),
            events: self.events.push(Event::AssetTransferred { asset_id, from, to }),
            ..self
        }
    }

    /// Transferring an asset.
    pub open spec fn transfer_asset(self, origin: Origin, asset_id: AssetId, to: AccountId) -> (
        PalletState,
        Result<(), DispatchError>,
    ) {
        self.outcome(
            self.transfer_check(origin, asset_id),
            self.after_transfer(asset_id, signer(origin).unwrap(), to),
        )
    }

    /// The state and result of dispatching `call` from `origin`.
    pub open spec fn step(self, origin: Origin, call: Call) -> (
        PalletState,
        Result<(), DispatchError>,
    ) {
        match call {
            Call::MintAsset {
                name,
                asset_type,
                contract_uri,
                contract_hash,
                is_fungible,
                fungible_supply,
            } => self.mint_asset(
                origin,
                name,
                asset_type,
                contract_uri,
                contract_hash,
                is_fungible,
                fungible_supply,
            ),
            Call::SignContract { asset_id } => self.sign_contract(origin, asset_id),
            Call::UpdateContract { asset_id, new_contract_uri, new_contract_hash } => self.update_contract(
                origin,
                asset_id,
                new_contract_uri,
                new_contract_hash,
            ),
            Call::FreezeAsset { asset_id } => self.freeze_asset(origin, asset_id),
            Call::TransferAsset { asset_id, to } => self.transfer_asset(origin, asset_id, to),
        }
    }
}

} // verus!
