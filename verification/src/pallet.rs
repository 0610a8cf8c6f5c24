use std::collections::HashMap;

use vstd::prelude::*;
use vstd::std_specs::hash::group_hash_axioms;

use crate::laws::lemma_step_preserves_wf;
use crate::spec::{Call, PalletState};
use crate::types::{
    ensure_signed, hash_is_zero, AccountId, AssetId, AssetInfo, AssetName, AssetType, BlockNumber,
    ContractHash, ContractUri, DispatchError, Error, Event, Origin,
};

verus! {

broadcast use group_hash_axioms;

/// The asset tokenization pallet: its storage, the current block, and the
/// record of deposited events.
pub struct Pallet {
    /// Auto-incrementing counter used to assign unique IDs to new assets.
    next_asset_id: AssetId,
    /// Maps an asset ID to its metadata.
    assets: HashMap<AssetId, AssetInfo>,
    /// Maps an asset ID to its current owner.
    asset_owner: HashMap<AssetId, AccountId>,
    /// For each asset, the accounts that signed its contract and the block of each signature.
    contract_signatures: HashMap<AssetId, HashMap<AccountId, u64>>,
    /// Tracks whether an asset's metadata has been permanently frozen.
    frozen_assets: HashMap<AssetId, bool>,
    /// The current block.
    block_number: BlockNumber,
    /// The events deposited so far, oldest first.
    events: Vec<Event>,
}

/// The signatures held in a map from asset to (signer to block), keyed by (asset, signer).
pub closed spec fn flatten_signatures(sigs: Map<AssetId, HashMap<AccountId, u64>>) -> Map<
    (AssetId, AccountId),
    u64,
> {
    Map::new(
        |k: (AssetId, AccountId)| sigs.contains_key(k.0) && sigs[k.0]@.contains_key(k.1),
        |k: (AssetId, AccountId)| sigs[k.0]@[k.1],
    )
}

/// The metadata records of a map of assets, as views.
pub closed spec fn asset_views(assets: Map<AssetId, AssetInfo>) -> Map<AssetId, crate::types::AssetInfoView> {
    assets.map_values(|a: AssetInfo| a@)
}

impl View for Pallet {
    type V = PalletState;

    closed spec fn view(&self) -> PalletState {
        PalletState {
            next_asset_id: self.next_asset_id,
            assets: asset_views(self.assets@),
            owners: self.asset_owner@,
            signatures: flatten_signatures(self.contract_signatures@),
            frozen: self.frozen_assets@,
            block_number: self.block_number,
            events: self.events@,
        }
    }
}

impl Pallet {
    /// The pallet at genesis: no asset, ID counter and block number at zero, no event.
    pub fn new() -> (p: Pallet)
        ensures
            p@ == PalletState::genesis(),
            p@.wf(),
    {
        let p = Pallet {
            next_asset_id: 0,
            assets: HashMap::new(),
            asset_owner: HashMap::new(),
            contract_signatures: HashMap::new(),
            frozen_assets: HashMap::new(),
            block_number: 0,
            events: Vec::new(),
        };
        proof {
            assert(asset_views(p.assets@) =~= Map::empty());
            assert(flatten_signatures(p.contract_signatures@) =~= Map::empty());
        }
        p
    }

    /// Whether the metadata of `asset_id` is frozen.
    pub fn is_frozen(&self, asset_id: AssetId) -> (frozen: bool)
        ensures
            frozen == self@.is_frozen(asset_id),
    {
        match self.frozen_assets.get(&asset_id) {
            Some(f) => *f,
            None => false,
        }
    }

    /// The block at which `who` signed the contract of `asset_id`, if they did.
    pub fn contract_signature(&self, asset_id: AssetId, who: AccountId) -> (block: Option<u64>)
        ensures
            match block {
                Some(b) => self@.has_signed(asset_id, who) && self@.signatures[(asset_id, who)] == b,
                None => !self@.has_signed(asset_id, who),
            },
    {
        match self.contract_signatures.get(&asset_id) {
            Some(signers) => match signers.get(&who) {
                Some(b) => Some(*b),
                None => None,
            },
            None => None,
        }
    }

    /// Whether `who` has signed the contract of `asset_id`.
    pub fn has_signed(&self, asset_id: AssetId, who: AccountId) -> (signed: bool)
        ensures
            signed == self@.has_signed(asset_id, who),
    {
        self.contract_signature(asset_id, who).is_some()
    }

    /// Sign the legal contract attached to an asset.
    ///
    /// Fails if the asset does not exist, its metadata is frozen, or the caller
    /// has already signed.
    pub fn sign_contract(&mut self, origin: Origin, asset_id: AssetId) -> (result: Result<
        (),
        DispatchError,
    >)
        ensures
            (final(self)@, result) == old(self)@.sign_contract(origin, asset_id),
            old(self)@.wf() ==> final(self)@.wf(),
    {
        proof {
            if old(self)@.wf() {
                lemma_step_preserves_wf(old(self)@, origin, Call::SignContract { asset_id });
            }
        }
        let who: AccountId = ensure_signed(origin)?;
        if !self.assets.contains_key(&asset_id) {
            return Err(DispatchError::Module(Error::AssetNotFound));
        }
        if self.is_frozen(asset_id) {
            return Err(DispatchError::Module(Error::AssetIsFrozen));
        }
        if self.has_signed(asset_id, who) {
            return Err(DispatchError::Module(Error::AlreadySigned));
        }
        let current_block: BlockNumber = self.block_number;
        let block_u64: u64 = current_block;
        let ghost old_sigs = self.contract_signatures@;
        let mut signers = match self.contract_signatures.remove(&asset_id) {
            Some(m) => m,
            None => HashMap::new(),
        };
        signers.insert(who, block_u64);
        self.contract_signatures.insert(asset_id, signers);
        self.events.push(Event::ContractSigned { asset_id, signer: who, block: current_block });
        proof {
            assert(flatten_signatures(self.contract_signatures@) =~= flatten_signatures(
                old_sigs,
            ).insert((asset_id, who), block_u64));
        }
        Ok(())
    }

    /// The current owner of `asset_id`, if the asset has one.
    pub fn asset_owner(&self, asset_id: AssetId) -> (owner: Option<AccountId>)
        ensures
            owner == (if self@.owners.contains_key(asset_id) {
                Some(self@.owners[asset_id])
            } else {
                None
            }),
    {
        match self.asset_owner.get(&asset_id) {
            Some(o) => Some(*o),
            None => None,
        }
    }

    /// Update the IPFS contract URI and hash for an asset.
    ///
    /// Only the current owner may call this. Fails if the asset is frozen.
    pub fn update_contract(
        &mut self,
        origin: Origin,
        asset_id: AssetId,
        new_contract_uri: ContractUri,
        new_contract_hash: ContractHash,
    ) -> (result: Result<(), DispatchError>)
        ensures
            (final(self)@, result) == old(self)@.update_contract(
                origin,
                asset_id,
                new_contract_uri@,
                new_contract_hash,
            ),
            old(self)@.wf() ==> final(self)@.wf(),
    {
        proof {
            use_type_invariant(&new_contract_uri);
            if old(self)@.wf() {
                lemma_step_preserves_wf(
                    old(self)@,
                    origin,
                    Call::UpdateContract {
                        asset_id,
                        new_contract_uri: new_contract_uri@,
                        new_contract_hash,
                    },
                );
            }
        }
        let who: AccountId = ensure_signed(origin)?;
        if hash_is_zero(&new_contract_hash) {
            return Err(DispatchError::Module(Error::InvalidContractHash));
        }
        if self.is_frozen(asset_id) {
            return Err(DispatchError::Module(Error::AssetIsFrozen));
        }
        let owner: AccountId = match self.asset_owner(asset_id) {
            Some(o) => o,
            None => return Err(DispatchError::Module(Error::AssetNotFound)),
        };
        if owner != who {
            return Err(DispatchError::Module(Error::NotAssetOwner));
        }
        if !self.assets.contains_key(&asset_id) {
            return Err(DispatchError::Module(Error::AssetNotFound));
        }
        let ghost old_assets = self.assets@;
        let mut info = self.assets.remove(&asset_id).unwrap();
        info.contract_uri = new_contract_uri;
        info.contract_hash = new_contract_hash;
        let ghost info_view = info@;
        self.assets.insert(asset_id, info);
        self.events.push(Event::ContractUpdated { asset_id, new_hash: new_contract_hash });
        proof {
            assert(asset_views(self.assets@) =~= asset_views(old_assets).insert(asset_id, info_view));
        }
        Ok(())
    }

    /// Permanently freeze an asset's metadata.
    ///
    /// Only the current owner may call this. Once frozen the asset cannot be
    /// updated, signed, or re-frozen.
    pub fn freeze_asset(&mut self, origin: Origin, asset_id: AssetId) -> (result: Result<
        (),
        DispatchError,
    >)
        ensures
            (final(self)@, result) == old(self)@.freeze_asset(origin, asset_id),
            old(self)@.wf() ==> final(self)@.wf(),
    {
        proof {
            if old(self)@.wf() {
                lemma_step_preserves_wf(old(self)@, origin, Call::FreezeAsset { asset_id });
            }
        }
        let who: AccountId = ensure_signed(origin)?;
        if !self.assets.contains_key(&asset_id) {
            return Err(DispatchError::Module(Error::AssetNotFound));
        }
        let owner: AccountId = match self.asset_owner(asset_id) {
            Some(o) => o,
            None => return Err(DispatchError::Module(Error::AssetNotFound)),
        };
        if owner != who {
            return Err(DispatchError::Module(Error::NotAssetOwner));
        }
        if self.is_frozen(asset_id) {
            return Err(DispatchError::Module(Error::AssetIsFrozen));
        }
        self.frozen_assets.insert(asset_id, true);
        self.events.push(Event::AssetFrozen { asset_id });
        Ok(())
    }

    /// Transfer ownership of an asset to another account.
    ///
    /// Only the current owner may call this, and only after signing the
    /// asset's contract.
    pub fn transfer_asset(&mut self, origin: Origin, asset_id: AssetId, to: AccountId) -> (result:
        Result<(), DispatchError>)
        ensures
            (final(self)@, result) == old(self)@.transfer_asset(origin, asset_id, to),
            old(self)@.wf() ==> final(self)@.wf(),
    {
        proof {
            if old(self)@.wf() {
                lemma_step_preserves_wf(old(self)@, origin, Call::TransferAsset { asset_id, to });
            }
        }
        let who: AccountId = ensure_signed(origin)?;
        if !self.assets.contains_key(&asset_id) {
            return Err(DispatchError::Module(Error::AssetNotFound));
        }
        let owner: AccountId = match self.asset_owner(asset_id) {
            Some(o) => o,
            None => return Err(DispatchError::Module(Error::AssetNotFound)),
        };
        if owner != who {
            return Err(DispatchError::Module(Error::NotAssetOwner));
        }
        if !self.has_signed(asset_id, who) {
            return Err(DispatchError::Module(Error::ContractNotSigned));
        }
        self.asset_owner.insert(asset_id, to);
        self.events.push(Event::AssetTransferred { asset_id, from: who, to });
        Ok(())
    }

    /// The current block.
    pub fn block_number(&self) -> (n: BlockNumber)
        ensures
            n == self@.block_number,
    {
        self.block_number
    }

    /// Moves the chain to block `n`; nothing else changes.
    pub fn set_block_number(&mut self, n: BlockNumber)
        ensures
            final(self)@ == (PalletState { block_number: n, ..old(self)@ }),
            old(self)@.wf() ==> final(self)@.wf(),
    {
        self.block_number = n;
    }

    /// The ID the next minted asset receives.
    pub fn next_asset_id(&self) -> (id: AssetId)
        ensures
            id == self@.next_asset_id,
    {
        self.next_asset_id
    }

    /// The metadata of `asset_id`, if it exists.
    pub fn asset(&self, asset_id: AssetId) -> (info: Option<&AssetInfo>)
        ensures
            match info {
                Some(i) => self@.assets.contains_key(asset_id) && i@ == self@.assets[asset_id],
                None => !self@.assets.contains_key(asset_id),
            },
    {
        self.assets.get(&asset_id)
    }

    /// Whether an asset with ID `asset_id` exists.
    pub fn contains_asset(&self, asset_id: AssetId) -> (exists: bool)
        ensures
            exists == self@.assets.contains_key(asset_id),
    {
        self.assets.contains_key(&asset_id)
    }

    /// The events deposited so far, oldest first.
    pub fn events(&self) -> (events: &Vec<Event>)
        ensures
            events@ == self@.events,
    {
        &self.events
    }

    /// The most recently deposited event, if any.
    pub fn last_event(&self) -> (event: Option<Event>)
        ensures
            event == (if self@.events.len() > 0 {
                Some(self@.events.last())
            } else {
                None
            }),
    {
        let n: usize = self.events.len();
        if n > 0 {
            Some(self.events[n - 1])
        } else {
            None
        }
    }

    /// Mint a new tokenized asset.
    ///
    /// Creates an `AssetInfo` entry, records the caller as owner, and increments
    /// the global asset-ID counter.
    pub fn mint_asset(
        &mut self,
        origin: Origin,
        name: AssetName,
        asset_type: AssetType,
        contract_uri: ContractUri,
        contract_hash: ContractHash,
        is_fungible: bool,
        fungible_supply: Option<u128>,
    ) -> (result: Result<(), DispatchError>)
        ensures
            (final(self)@, result) == old(self)@.mint_asset(
                origin,
                name@,
                asset_type,
                contract_uri@,
                contract_hash,
                is_fungible,
                fungible_supply,
            ),
            old(self)@.wf() ==> final(self)@.wf(),
    {
        proof {
            use_type_invariant(&name);
            use_type_invariant(&contract_uri);
            if old(self)@.wf() {
                lemma_step_preserves_wf(
                    old(self)@,
                    origin,
                    Call::MintAsset {
                        name: name@,
                        asset_type,
                        contract_uri: contract_uri@,
                        contract_hash,
                        is_fungible,
                        fungible_supply,
                    },
                );
            }
        }
        let who: AccountId = ensure_signed(origin)?;
        if hash_is_zero(&contract_hash) {
            return Err(DispatchError::Module(Error::InvalidContractHash));
        }
        if is_fungible != fungible_supply.is_some() {
            return Err(DispatchError::Module(Error::InconsistentFungibleSupply));
        }
        let asset_id: AssetId = self.next_asset_id;
        let current_block: BlockNumber = self.block_number;
        let info = AssetInfo {
            name,
            asset_type,
            contract_uri,
            contract_hash,
            is_fungible,
            fungible_supply,
            creator: who,
            created_at: current_block,
        };
        let ghost info_view = info@;
        self.assets.insert(asset_id, info);
        self.asset_owner.insert(asset_id, who);
        self.next_asset_id = asset_id.saturating_add(1);
        self.events.push(Event::AssetMinted { asset_id, owner: who, contract_hash });
        proof {
            assert(asset_views(self.assets@) =~= asset_views(old(self).assets@).insert(
                asset_id,
                info_view,
            ));
        }
        Ok(())
    }
}

} // verus!
