use vstd::prelude::*;

use crate::spec::{call_within_bounds, Call, PalletState};
use crate::types::{
    is_zero_hash, signer, AccountId, AssetId, AssetType, ContractHash, DispatchError, Error, Event,
    Origin,
};

verus! {

/// The state at genesis holds no asset, owner, signature, frozen flag or
/// event, hands out ID 0 first, is at block 0, and satisfies the invariant.
pub proof fn lemma_genesis_wf()
    ensures
        PalletState::genesis().wf(),
        PalletState::genesis().next_asset_id == 0,
        PalletState::genesis().block_number == 0,
        PalletState::genesis().assets.dom().is_empty(),
        PalletState::genesis().owners.dom().is_empty(),
        PalletState::genesis().signatures.dom().is_empty(),
        PalletState::genesis().frozen.dom().is_empty(),
        PalletState::genesis().events.len() == 0,
{
}

/// Every call, accepted or refused, keeps the invariant: assets and owners are
/// recorded for the same IDs, frozen flags and signatures only for existing
/// assets, every ID was handed out by the counter, every record is valid.
pub proof fn lemma_step_preserves_wf(pre: PalletState, origin: Origin, call: Call)
    requires
        pre.wf(),
        call_within_bounds(call),
    ensures
        pre.step(origin, call).0.wf(),
{
    let post = pre.step(origin, call).0;
    match call {
        Call::MintAsset { .. } => {
            assert forall|id: AssetId| #[trigger] post.assets.contains_key(id) implies id
                < post.next_asset_id || id == post.next_asset_id == u64::MAX by {
                if pre.assets.contains_key(id) {
                }
            }
        },
        Call::SignContract { .. } => {},
        Call::UpdateContract { .. } => {},
        Call::FreezeAsset { .. } => {},
        Call::TransferAsset { .. } => {},
    }
}

/// A refused call leaves the state as it was; an accepted call deposits
/// exactly one event after those already deposited.
pub proof fn lemma_refused_call_changes_nothing(pre: PalletState, origin: Origin, call: Call)
    ensures
        pre.step(origin, call).1 is Err ==> pre.step(origin, call).0 == pre,
        pre.step(origin, call).1 is Ok ==> pre.step(origin, call).0.events.len() == pre.events.len()
            + 1 && pre.step(origin, call).0.events.drop_last() == pre.events,
{
    let post = pre.step(origin, call).0;
    if pre.step(origin, call).1 is Ok {
        assert(post.events.drop_last() =~= pre.events);
    }
}

/// Once an asset is frozen, it stays frozen whatever call comes.
pub proof fn lemma_frozen_is_permanent(pre: PalletState, origin: Origin, call: Call, id: AssetId)
    requires
        pre.is_frozen(id),
    ensures
        pre.step(origin, call).0.is_frozen(id),
{
}

/// A frozen asset cannot be updated, signed, or re-frozen.
pub proof fn lemma_frozen_asset_refuses_changes(
    pre: PalletState,
    origin: Origin,
    id: AssetId,
    new_contract_uri: Seq<u8>,
    new_contract_hash: ContractHash,
)
    requires
        pre.is_frozen(id),
    ensures
        pre.update_contract(origin, id, new_contract_uri, new_contract_hash).1 is Err,
        pre.sign_contract(origin, id).1 is Err,
        pre.freeze_asset(origin, id).1 is Err,
{
}

/// The metadata of a frozen asset never changes again, unless a mint reuses
/// its ID (which happens only once the ID counter is saturated at that ID).
pub proof fn lemma_frozen_metadata_unchanged(
    pre: PalletState,
    origin: Origin,
    call: Call,
    id: AssetId,
)
    requires
        pre.wf(),
        pre.is_frozen(id),
        !(call is MintAsset && id == pre.next_asset_id),
    ensures
        pre.step(origin, call).0.assets.contains_key(id),
        pre.step(origin, call).0.assets[id] == pre.assets[id],
{
}

/// A recorded signature is never removed nor altered.
pub proof fn lemma_signatures_persist(
    pre: PalletState,
    origin: Origin,
    call: Call,
    key: (AssetId, AccountId),
)
    requires
        pre.signatures.contains_key(key),
    ensures
        pre.step(origin, call).0.signatures.contains_key(key),
        pre.step(origin, call).0.signatures[key] == pre.signatures[key],
{
}

/// A transfer goes ahead only when the caller owns the asset and has signed
/// its contract; afterwards the recipient owns it.
pub proof fn lemma_transfer_requires_owner_signature(
    pre: PalletState,
    origin: Origin,
    id: AssetId,
    to: AccountId,
)
    ensures
        pre.transfer_asset(origin, id, to).1 is Ok ==> {
            let who = signer(origin).unwrap();
            &&& signer(origin) is Some
            &&& pre.is_owner(id, who)
            &&& pre.has_signed(id, who)
            &&& pre.transfer_asset(origin, id, to).0.is_owner(id, to)
        },
{
}

/// While the ID counter is below its maximum, minting stores the new asset
/// under an ID that no existing asset has, keeps every existing asset, makes
/// the caller its owner, and advances the counter by one.
pub proof fn lemma_mint_allocates_fresh_id(
    pre: PalletState,
    origin: Origin,
    name: Seq<u8>,
    asset_type: AssetType,
    contract_uri: Seq<u8>,
    contract_hash: ContractHash,
    is_fungible: bool,
    fungible_supply: Option<u128>,
)
    requires
        pre.wf(),
        pre.next_asset_id < u64::MAX,
    ensures
        ({
            let (post, result) = pre.mint_asset(
                origin,
                name,
                asset_type,
                contract_uri,
                contract_hash,
                is_fungible,
                fungible_supply,
            );
            result is Ok ==> {
                &&& !pre.assets.contains_key(pre.next_asset_id)
                &&& post.next_asset_id == pre.next_asset_id + 1
                &&& post.is_owner(pre.next_asset_id, signer(origin).unwrap())
                &&& forall|id: AssetId| #[trigger]
                    pre.assets.contains_key(id) ==> post.assets.contains_key(id) && post.assets[id]
                        == pre.assets[id] && post.owners[id] == pre.owners[id]
            }
        }),
{
}

/// The owner of an asset changes only by a transfer from its owner, who has
/// signed its contract, or by the mint that creates it.
pub proof fn lemma_owner_changes_only_by_transfer_or_mint(
    pre: PalletState,
    origin: Origin,
    call: Call,
    id: AssetId,
)
    ensures
        pre.step(origin, call).0.owners.get(id) != pre.owners.get(id) ==> match call {
            Call::TransferAsset { asset_id, to } => {
                let who = signer(origin).unwrap();
                &&& asset_id == id
                &&& signer(origin) is Some
                &&& pre.is_owner(id, who)
                &&& pre.has_signed(id, who)
                &&& pre.step(origin, call).0.owners.get(id) == Some(to)
            },
            Call::MintAsset { .. } => id == pre.next_asset_id && pre.step(origin, call).0.owners.get(
                id,
            ) == signer(origin),
            _ => false,
        },
{
}

/// The metadata of an asset changes only by an update from its owner while
/// it is not frozen, or by the mint that stores it.
pub proof fn lemma_metadata_changes_only_by_owner(
    pre: PalletState,
    origin: Origin,
    call: Call,
    id: AssetId,
)
    ensures
        pre.step(origin, call).0.assets.get(id) != pre.assets.get(id) ==> match call {
            Call::UpdateContract { asset_id, .. } => {
                &&& asset_id == id
                &&& signer(origin) is Some
                &&& pre.is_owner(id, signer(origin).unwrap())
                &&& !pre.is_frozen(id)
            },
            Call::MintAsset { .. } => id == pre.next_asset_id,
            _ => false,
        },
{
}

/// Only the owner of an asset can freeze it.
pub proof fn lemma_only_owner_freezes(pre: PalletState, origin: Origin, call: Call, id: AssetId)
    ensures
        !pre.is_frozen(id) && pre.step(origin, call).0.is_frozen(id) ==> {
            &&& call == (Call::FreezeAsset { asset_id: id })
            &&& signer(origin) is Some
            &&& pre.is_owner(id, signer(origin).unwrap())
        },
{
}

} // verus!

verus! {

/// Minting is accepted exactly when the origin is signed, the hash has a
/// non-zero byte and a supply is given exactly for a fungible asset; then the
/// record stored under the counter's previous value holds the call's own
/// arguments, the signer becomes its owner, the counter moves on by one
/// (staying put at its maximum), nothing else is stored, and the mint event
/// is deposited.
/// A refused mint reports the first of: unsigned origin, all-zero hash,
/// inconsistent supply.
pub proof fn lemma_mint_stores_the_arguments(
    pre: PalletState,
    origin: Origin,
    name: Seq<u8>,
    asset_type: AssetType,
    contract_uri: Seq<u8>,
    contract_hash: ContractHash,
    is_fungible: bool,
    fungible_supply: Option<u128>,
)
    ensures
        ({
            let (post, result) = pre.mint_asset(
                origin,
                name,
                asset_type,
                contract_uri,
                contract_hash,
                is_fungible,
                fungible_supply,
            );
            let id = pre.next_asset_id;
            let who = signer(origin).unwrap();
            &&& result == (if !(origin is Signed) {
                Err::<(), DispatchError>(DispatchError::BadOrigin)
            } else if (forall|i: int| 0 <= i < 32 ==> #[trigger] contract_hash@[i] == 0) {
                Err::<(), DispatchError>(DispatchError::Module(Error::InvalidContractHash))
            } else if is_fungible != (fungible_supply is Some) {
                Err::<(), DispatchError>(DispatchError::Module(Error::InconsistentFungibleSupply))
            } else {
                Ok::<(), DispatchError>(())
            })
            &&& result is Ok <==> (origin is Signed && (exists|i: int|
                0 <= i < 32 && #[trigger] contract_hash@[i] != 0) && is_fungible
                == (fungible_supply is Some))
            &&& result is Ok ==> origin == Origin::Signed(who) && {
                &&& post.assets.contains_key(id)
                &&& post.assets[id].name == name
                &&& post.assets[id].asset_type == asset_type
                &&& post.assets[id].contract_uri == contract_uri
                &&& post.assets[id].contract_hash == contract_hash
                &&& post.assets[id].is_fungible == is_fungible
                &&& post.assets[id].fungible_supply == fungible_supply
                &&& post.assets[id].creator == who
                &&& post.assets[id].created_at == pre.block_number
                &&& post.owners == pre.owners.insert(id, who)
                &&& post.assets.remove(id) == pre.assets.remove(id)
                &&& post.next_asset_id == (if id < u64::MAX {
                    id + 1
                } else {
                    id as int
                })
                &&& post.signatures == pre.signatures
                &&& post.frozen == pre.frozen
                &&& post.block_number == pre.block_number
                &&& post.events == pre.events.push(
                    Event::AssetMinted { asset_id: id, owner: who, contract_hash },
                )
            }
        }),
{
    let (post, result) = pre.mint_asset(
        origin,
        name,
        asset_type,
        contract_uri,
        contract_hash,
        is_fungible,
        fungible_supply,
    );
    if !is_zero_hash(contract_hash@) {
        let i = choose|i: int| 0 <= i < contract_hash@.len() && contract_hash@[i] != 0;
        assert(contract_hash@[i] != 0);
    }
    if exists|i: int| 0 <= i < 32 && #[trigger] contract_hash@[i] != 0 {
        assert(!is_zero_hash(contract_hash@));
    }
    if result is Ok {
        assert(post.assets.remove(pre.next_asset_id) =~= pre.assets.remove(pre.next_asset_id));
    }
}

/// Signing is accepted exactly when the origin is signed, the asset exists,
/// it is not frozen and this signer has not signed it yet, whoever else has;
/// then the signer's signature is recorded at the current block, every other
/// signature and all the rest of the storage stay, and the event is deposited.
/// A refusal reports the first of: unsigned origin, missing asset, frozen
/// asset, signature already present.
pub proof fn lemma_sign_records_the_signer(pre: PalletState, origin: Origin, id: AssetId)
    ensures
        ({
            let (post, result) = pre.sign_contract(origin, id);
            let who = signer(origin).unwrap();
            &&& result == (if !(origin is Signed) {
                Err::<(), DispatchError>(DispatchError::BadOrigin)
            } else if !pre.assets.contains_key(id) {
                Err::<(), DispatchError>(DispatchError::Module(Error::AssetNotFound))
            } else if (pre.frozen.contains_key(id) && pre.frozen[id]) {
                Err::<(), DispatchError>(DispatchError::Module(Error::AssetIsFrozen))
            } else if pre.signatures.contains_key((id, who)) {
                Err::<(), DispatchError>(DispatchError::Module(Error::AlreadySigned))
            } else {
                Ok::<(), DispatchError>(())
            })
            &&& result is Ok <==> (origin matches Origin::Signed(who) && pre.assets.contains_key(id)
                && !(pre.frozen.contains_key(id) && pre.frozen[id])
                && !pre.signatures.contains_key((id, who)))
            &&& result is Ok ==> origin == Origin::Signed(who) && {
                &&& post.signatures == pre.signatures.insert((id, who), pre.block_number)
                &&& post.assets == pre.assets
                &&& post.owners == pre.owners
                &&& post.frozen == pre.frozen
                &&& post.next_asset_id == pre.next_asset_id
                &&& post.block_number == pre.block_number
                &&& post.events == pre.events.push(
                    Event::ContractSigned { asset_id: id, signer: who, block: pre.block_number },
                )
            }
        }),
{
}

/// Updating is accepted exactly when the origin is signed by the asset's
/// current owner (whoever created it), the asset exists and is not frozen,
/// and the new hash has a non-zero byte; then the asset holds the new URI and
/// hash with its other fields as they were, nothing else changes, and the
/// event is deposited.
/// A refusal reports the first of: unsigned origin, all-zero hash, frozen
/// asset, no owner, another owner, missing asset.
pub proof fn lemma_update_replaces_the_contract(
    pre: PalletState,
    origin: Origin,
    id: AssetId,
    new_contract_uri: Seq<u8>,
    new_contract_hash: ContractHash,
)
    ensures
        ({
            let (post, result) = pre.update_contract(origin, id, new_contract_uri, new_contract_hash);
            let who = signer(origin).unwrap();
            &&& result == (if !(origin is Signed) {
                Err::<(), DispatchError>(DispatchError::BadOrigin)
            } else if (forall|i: int| 0 <= i < 32 ==> #[trigger] new_contract_hash@[i] == 0) {
                Err::<(), DispatchError>(DispatchError::Module(Error::InvalidContractHash))
            } else if (pre.frozen.contains_key(id) && pre.frozen[id]) {
                Err::<(), DispatchError>(DispatchError::Module(Error::AssetIsFrozen))
            } else if !pre.owners.contains_key(id) {
                Err::<(), DispatchError>(DispatchError::Module(Error::AssetNotFound))
            } else if pre.owners[id] != who {
                Err::<(), DispatchError>(DispatchError::Module(Error::NotAssetOwner))
            } else if !pre.assets.contains_key(id) {
                Err::<(), DispatchError>(DispatchError::Module(Error::AssetNotFound))
            } else {
                Ok::<(), DispatchError>(())
            })
            &&& result is Ok <==> (origin matches Origin::Signed(who) && pre.assets.contains_key(id)
                && pre.owners.contains_key(id) && pre.owners[id] == who && !(pre.frozen.contains_key(
                id,
            ) && pre.frozen[id]) && (exists|i: int|
                0 <= i < 32 && #[trigger] new_contract_hash@[i] != 0))
            &&& result is Ok ==> {
                &&& post.assets.contains_key(id)
                &&& post.assets[id].contract_uri == new_contract_uri
                &&& post.assets[id].contract_hash == new_contract_hash
                &&& post.assets[id].name == pre.assets[id].name
                &&& post.assets[id].asset_type == pre.assets[id].asset_type
                &&& post.assets[id].is_fungible == pre.assets[id].is_fungible
                &&& post.assets[id].fungible_supply == pre.assets[id].fungible_supply
                &&& post.assets[id].creator == pre.assets[id].creator
                &&& post.assets[id].created_at == pre.assets[id].created_at
                &&& post.assets.remove(id) == pre.assets.remove(id)
                &&& post.owners == pre.owners
                &&& post.signatures == pre.signatures
                &&& post.frozen == pre.frozen
                &&& post.next_asset_id == pre.next_asset_id
                &&& post.block_number == pre.block_number
                &&& post.events == pre.events.push(
                    Event::ContractUpdated { asset_id: id, new_hash: new_contract_hash },
                )
            }
        }),
{
    let (post, result) = pre.update_contract(origin, id, new_contract_uri, new_contract_hash);
    if !is_zero_hash(new_contract_hash@) {
        let i = choose|i: int| 0 <= i < new_contract_hash@.len() && new_contract_hash@[i] != 0;
        assert(new_contract_hash@[i] != 0);
    }
    if exists|i: int| 0 <= i < 32 && #[trigger] new_contract_hash@[i] != 0 {
        assert(!is_zero_hash(new_contract_hash@));
    }
    if result is Ok {
        assert(post.assets.remove(id) =~= pre.assets.remove(id));
    }
}

/// Freezing is accepted exactly when the origin is signed by the asset's
/// current owner (whoever created it) and the asset exists and is not yet
/// frozen; then it is frozen, nothing else changes, and the event is deposited.
/// A refusal reports the first of: unsigned origin, missing asset or owner,
/// another owner, already frozen.
pub proof fn lemma_freeze_sets_the_flag(pre: PalletState, origin: Origin, id: AssetId)
    ensures
        ({
            let (post, result) = pre.freeze_asset(origin, id);
            let who = signer(origin).unwrap();
            &&& result == (if !(origin is Signed) {
                Err::<(), DispatchError>(DispatchError::BadOrigin)
            } else if !pre.assets.contains_key(id) || !pre.owners.contains_key(id) {
                Err::<(), DispatchError>(DispatchError::Module(Error::AssetNotFound))
            } else if pre.owners[id] != who {
                Err::<(), DispatchError>(DispatchError::Module(Error::NotAssetOwner))
            } else if (pre.frozen.contains_key(id) && pre.frozen[id]) {
                Err::<(), DispatchError>(DispatchError::Module(Error::AssetIsFrozen))
            } else {
                Ok::<(), DispatchError>(())
            })
            &&& result is Ok <==> (origin matches Origin::Signed(who) && pre.assets.contains_key(id)
                && pre.owners.contains_key(id) && pre.owners[id] == who && !(pre.frozen.contains_key(
                id,
            ) && pre.frozen[id]))
            &&& result is Ok ==> {
                &&& post.frozen == pre.frozen.insert(id, true)
                &&& post.assets == pre.assets
                &&& post.owners == pre.owners
                &&& post.signatures == pre.signatures
                &&& post.next_asset_id == pre.next_asset_id
                &&& post.block_number == pre.block_number
                &&& post.events == pre.events.push(Event::AssetFrozen { asset_id: id })
            }
        }),
{
}

/// A transfer is accepted exactly when the origin is signed by the asset's
/// current owner, the asset exists and that owner has signed its contract,
/// whoever the recipient is and whatever it has signed; then the recipient
/// owns the asset, nothing else changes, and the event is deposited.
/// A refusal reports the first of: unsigned origin, missing asset or owner,
/// another owner, owner's signature missing.
pub proof fn lemma_transfer_hands_over(pre: PalletState, origin: Origin, id: AssetId, to: AccountId)
    ensures
        ({
            let (post, result) = pre.transfer_asset(origin, id, to);
            let who = signer(origin).unwrap();
            &&& result is Ok <==> (origin matches Origin::Signed(who) && pre.assets.contains_key(id)
                && pre.owners.contains_key(id) && pre.owners[id] == who
                && pre.signatures.contains_key((id, who)))
            &&& result == (if !(origin is Signed) {
                Err::<(), DispatchError>(DispatchError::BadOrigin)
            } else if !pre.assets.contains_key(id) || !pre.owners.contains_key(id) {
                Err::<(), DispatchError>(DispatchError::Module(Error::AssetNotFound))
            } else if pre.owners[id] != who {
                Err::<(), DispatchError>(DispatchError::Module(Error::NotAssetOwner))
            } else if !pre.signatures.contains_key((id, who)) {
                Err::<(), DispatchError>(DispatchError::Module(Error::ContractNotSigned))
            } else {
                Ok::<(), DispatchError>(())
            })
            &&& result is Ok ==> origin == Origin::Signed(who) && {
                &&& post.owners == pre.owners.insert(id, to)
                &&& post.assets == pre.assets
                &&& post.signatures == pre.signatures
                &&& post.frozen == pre.frozen
                &&& post.next_asset_id == pre.next_asset_id
                &&& post.block_number == pre.block_number
                &&& post.events == pre.events.push(
                    Event::AssetTransferred { asset_id: id, from: who, to },
                )
            }
        }),
{
}

} // verus!
