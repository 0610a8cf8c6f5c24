use pallet_assettokenization::{
    ensure_signed, hash_is_zero, AssetName, AssetType, ContractUri, DispatchError, Error, Event,
    Origin, Pallet, MAX_NAME_LEN, MAX_URI_LEN,
};

fn hash(b: u8) -> [u8; 32] {
    [b; 32]
}

fn uri(s: &str) -> ContractUri {
    ContractUri::try_from(s.as_bytes().to_vec()).unwrap()
}

fn name(s: &str) -> AssetName {
    AssetName::try_from(s.as_bytes().to_vec()).unwrap()
}

fn mint(p: &mut Pallet, who: u64) -> Result<(), DispatchError> {
    p.mint_asset(Origin::signed(who), name("A"), AssetType::Physical, uri("ipfs://a"), hash(7), false, None)
}

#[test]
fn genesis_is_empty() {
    let p = Pallet::new();
    assert_eq!(p.next_asset_id(), 0);
    assert_eq!(p.block_number(), 0);
    assert!(p.events().is_empty());
    assert_eq!(p.last_event(), None);
    assert!(!p.contains_asset(0));
    assert_eq!(p.asset_owner(0), None);
    assert!(!p.is_frozen(0));
    assert!(!p.has_signed(0, 1));
    assert_eq!(p.contract_signature(0, 1), None);
}

#[test]
fn mint_assigns_consecutive_ids_and_records_metadata() {
    let mut p = Pallet::new();
    p.set_block_number(5);
    assert_eq!(mint(&mut p, 1), Ok(()));
    p.set_block_number(6);
    assert_eq!(
        p.mint_asset(
            Origin::signed(2),
            name("Second"),
            AssetType::Digital,
            uri("ipfs://b"),
            hash(9),
            true,
            Some(42),
        ),
        Ok(())
    );
    assert_eq!(p.next_asset_id(), 2);
    assert_eq!(p.asset_owner(0), Some(1));
    assert_eq!(p.asset_owner(1), Some(2));
    let info = p.asset(1).unwrap();
    assert_eq!(info.name.as_slice(), b"Second");
    assert_eq!(info.asset_type, AssetType::Digital);
    assert_eq!(info.contract_uri.as_slice(), b"ipfs://b");
    assert_eq!(info.contract_hash, hash(9));
    assert!(info.is_fungible);
    assert_eq!(info.fungible_supply, Some(42));
    assert_eq!(info.creator, 2);
    assert_eq!(info.created_at, 6);
    assert_eq!(p.asset(0).unwrap().created_at, 5);
    assert_eq!(p.events().len(), 2);
    assert_eq!(
        p.events()[0],
        Event::AssetMinted { asset_id: 0, owner: 1, contract_hash: hash(7) }
    );
}

#[test]
fn every_call_refuses_unsigned_origins() {
    let mut p = Pallet::new();
    assert_eq!(mint(&mut p, 1), Ok(()));
    for origin in [Origin::Root, Origin::Unsigned] {
        let r = p.mint_asset(origin, name("A"), AssetType::Physical, uri("u"), hash(1), false, None);
        assert_eq!(r, Err(DispatchError::BadOrigin));
        assert_eq!(p.sign_contract(origin, 0), Err(DispatchError::BadOrigin));
        assert_eq!(p.update_contract(origin, 0, uri("v"), hash(2)), Err(DispatchError::BadOrigin));
        assert_eq!(p.freeze_asset(origin, 0), Err(DispatchError::BadOrigin));
        assert_eq!(p.transfer_asset(origin, 0, 5), Err(DispatchError::BadOrigin));
    }
    assert_eq!(p.events().len(), 1);
    assert_eq!(p.next_asset_id(), 1);
}

#[test]
fn zero_hash_rejected() {
    let mut p = Pallet::new();
    let r = p.mint_asset(Origin::signed(1), name("A"), AssetType::Physical, uri("u"), hash(0), false, None);
    assert_eq!(r, Err(DispatchError::Module(Error::InvalidContractHash)));
    assert_eq!(p.next_asset_id(), 0);
    assert_eq!(mint(&mut p, 1), Ok(()));
    assert_eq!(
        p.update_contract(Origin::signed(1), 0, uri("v"), hash(0)),
        Err(DispatchError::Module(Error::InvalidContractHash))
    );
    // The hash check comes before the fungibility check.
    let r = p.mint_asset(Origin::signed(1), name("A"), AssetType::Physical, uri("u"), hash(0), true, None);
    assert_eq!(r, Err(DispatchError::Module(Error::InvalidContractHash)));
}

#[test]
fn update_contract_replaces_uri_and_hash() {
    let mut p = Pallet::new();
    assert_eq!(mint(&mut p, 1), Ok(()));
    assert_eq!(p.update_contract(Origin::signed(1), 0, uri("ipfs://new"), hash(3)), Ok(()));
    let info = p.asset(0).unwrap();
    assert_eq!(info.contract_uri.as_slice(), b"ipfs://new");
    assert_eq!(info.contract_hash, hash(3));
    assert_eq!(info.name.as_slice(), b"A");
    assert_eq!(p.last_event(), Some(Event::ContractUpdated { asset_id: 0, new_hash: hash(3) }));
}

#[test]
fn update_by_non_owner_or_on_missing_asset_refused() {
    let mut p = Pallet::new();
    assert_eq!(mint(&mut p, 1), Ok(()));
    assert_eq!(
        p.update_contract(Origin::signed(2), 0, uri("x"), hash(3)),
        Err(DispatchError::Module(Error::NotAssetOwner))
    );
    assert_eq!(
        p.update_contract(Origin::signed(1), 9, uri("x"), hash(3)),
        Err(DispatchError::Module(Error::AssetNotFound))
    );
    assert_eq!(p.asset(0).unwrap().contract_hash, hash(7));
}

#[test]
fn calls_on_missing_asset_refused() {
    let mut p = Pallet::new();
    let not_found = Err(DispatchError::Module(Error::AssetNotFound));
    assert_eq!(p.sign_contract(Origin::signed(1), 3), not_found);
    assert_eq!(p.freeze_asset(Origin::signed(1), 3), not_found);
    assert_eq!(p.transfer_asset(Origin::signed(1), 3, 4), not_found);
    assert!(p.events().is_empty());
}

#[test]
fn frozen_asset_cannot_be_signed_or_refrozen() {
    let mut p = Pallet::new();
    assert_eq!(mint(&mut p, 1), Ok(()));
    assert_eq!(p.freeze_asset(Origin::signed(1), 0), Ok(()));
    assert_eq!(p.last_event(), Some(Event::AssetFrozen { asset_id: 0 }));
    assert_eq!(
        p.freeze_asset(Origin::signed(1), 0),
        Err(DispatchError::Module(Error::AssetIsFrozen))
    );
    assert_eq!(
        p.sign_contract(Origin::signed(2), 0),
        Err(DispatchError::Module(Error::AssetIsFrozen))
    );
    // A non-owner learns that it is not the owner before learning that the asset is frozen.
    assert_eq!(
        p.freeze_asset(Origin::signed(2), 0),
        Err(DispatchError::Module(Error::NotAssetOwner))
    );
    assert!(p.is_frozen(0));
    assert_eq!(p.asset(0).unwrap().contract_hash, hash(7));
}

#[test]
fn frozen_asset_can_still_be_transferred_by_a_signed_owner() {
    let mut p = Pallet::new();
    assert_eq!(mint(&mut p, 1), Ok(()));
    assert_eq!(p.sign_contract(Origin::signed(1), 0), Ok(()));
    assert_eq!(p.freeze_asset(Origin::signed(1), 0), Ok(()));
    assert_eq!(p.transfer_asset(Origin::signed(1), 0, 2), Ok(()));
    assert_eq!(p.asset_owner(0), Some(2));
    assert!(p.is_frozen(0));
    // The new owner cannot sign a frozen asset, so cannot transfer it on.
    assert_eq!(
        p.sign_contract(Origin::signed(2), 0),
        Err(DispatchError::Module(Error::AssetIsFrozen))
    );
    assert_eq!(
        p.transfer_asset(Origin::signed(2), 0, 3),
        Err(DispatchError::Module(Error::ContractNotSigned))
    );
}

#[test]
fn new_owner_must_sign_before_transferring_on() {
    let mut p = Pallet::new();
    assert_eq!(mint(&mut p, 1), Ok(()));
    assert_eq!(p.sign_contract(Origin::signed(1), 0), Ok(()));
    assert_eq!(p.transfer_asset(Origin::signed(1), 0, 2), Ok(()));
    assert_eq!(
        p.transfer_asset(Origin::signed(2), 0, 3),
        Err(DispatchError::Module(Error::ContractNotSigned))
    );
    // The former owner's signature stays, but it no longer owns the asset.
    assert!(p.has_signed(0, 1));
    assert_eq!(
        p.transfer_asset(Origin::signed(1), 0, 3),
        Err(DispatchError::Module(Error::NotAssetOwner))
    );
    assert_eq!(p.sign_contract(Origin::signed(2), 0), Ok(()));
    assert_eq!(p.transfer_asset(Origin::signed(2), 0, 3), Ok(()));
    assert_eq!(p.asset_owner(0), Some(3));
}

#[test]
fn signature_records_the_current_block() {
    let mut p = Pallet::new();
    assert_eq!(mint(&mut p, 1), Ok(()));
    p.set_block_number(7);
    assert_eq!(p.sign_contract(Origin::signed(4), 0), Ok(()));
    p.set_block_number(9);
    assert_eq!(p.sign_contract(Origin::signed(5), 0), Ok(()));
    assert_eq!(p.contract_signature(0, 4), Some(7));
    assert_eq!(p.contract_signature(0, 5), Some(9));
    assert_eq!(p.contract_signature(0, 6), None);
    assert_eq!(p.last_event(), Some(Event::ContractSigned { asset_id: 0, signer: 5, block: 9 }));
}

#[test]
fn accepted_call_deposits_one_event_refused_none() {
    let mut p = Pallet::new();
    assert_eq!(mint(&mut p, 1), Ok(()));
    assert_eq!(p.events().len(), 1);
    assert!(p.transfer_asset(Origin::signed(1), 0, 2).is_err());
    assert_eq!(p.events().len(), 1);
    assert_eq!(p.sign_contract(Origin::signed(1), 0), Ok(()));
    assert_eq!(p.events().len(), 2);
    assert_eq!(
        p.events()[0],
        Event::AssetMinted { asset_id: 0, owner: 1, contract_hash: hash(7) }
    );
}

#[test]
fn bounded_bytes_enforce_their_bounds() {
    assert_eq!(MAX_NAME_LEN, 64);
    assert_eq!(MAX_URI_LEN, 256);
    assert_eq!(AssetName::try_from(vec![b'a'; 64]).unwrap().len(), 64);
    assert_eq!(AssetName::try_from(vec![b'a'; 65]).err(), Some(vec![b'a'; 65]));
    assert_eq!(ContractUri::try_from(vec![0u8; 256]).unwrap().len(), 256);
    assert_eq!(ContractUri::try_from(vec![0u8; 257]).err(), Some(vec![0u8; 257]));
    assert_eq!(AssetName::try_from(Vec::new()).unwrap().len(), 0);
}

#[test]
fn hash_zero_check() {
    assert!(hash_is_zero(&[0u8; 32]));
    let mut h = [0u8; 32];
    h[31] = 1;
    assert!(!hash_is_zero(&h));
    assert!(!hash_is_zero(&[1u8; 32]));
}

#[test]
fn ensure_signed_accepts_only_signed_origins() {
    assert_eq!(ensure_signed(Origin::signed(8)), Ok(8));
    assert_eq!(ensure_signed(Origin::Root), Err(DispatchError::BadOrigin));
    assert_eq!(ensure_signed(Origin::Unsigned), Err(DispatchError::BadOrigin));
}
