use zk_nft::bundle::CompressedProof;
use zk_nft::create_asset::{create_asset, CreateAssetResult};
use zk_nft::create_blob::create_blob;
use zk_nft::create_group::create_group;
use zk_nft::errors::ZkNftError;
use zk_nft::state::{
    AssetData, BaseData, Blob, DelegateRole, GroupAccount, NewAddressParams,
    PackedInputCompressedPda, PackedMerkleContext, State,
};
use zk_nft::transfer::transfer;

fn dummy_proof() -> CompressedProof {
    CompressedProof { a: [0u8; 32], b: [0u8; 64], c: [0u8; 32] }
}

fn input_pda() -> PackedInputCompressedPda {
    PackedInputCompressedPda {
        merkle_context: PackedMerkleContext {
            merkle_tree_pubkey_index: 0,
            nullifier_queue_pubkey_index: 1,
            leaf_index: 3,
            queue_index: None,
        },
        root_index: 5,
    }
}

fn address_params() -> NewAddressParams {
    NewAddressParams {
        address_queue_account_index: 1,
        address_merkle_tree_account_index: 0,
        address_merkle_tree_root_index: 2,
    }
}

fn make_asset(
    group: &mut Option<GroupAccount>,
    group_authority: Option<[u8; 32]>,
    recipient: [u8; 32],
) -> Result<CreateAssetResult, ZkNftError> {
    let trees = vec![[42u8; 32]];
    create_asset(
        group,
        &group_authority,
        &None,
        &recipient,
        dummy_proof(),
        &[17u8; 32],
        &address_params(),
        None,
        None,
        &trees,
    )
}

#[test]
fn create_group_starts_empty() {
    let g = create_group(5, &[1u8; 32]);
    assert_eq!(g.size, 0);
    assert_eq!(g.max_size, 5);
    assert_eq!(g.authority, [1u8; 32]);
}

#[test]
fn a_bounded_group_never_exceeds_its_capacity() {
    let authority = [1u8; 32];
    let mut group = Some(GroupAccount { key: [20u8; 32], data: create_group(2, &authority) });
    assert!(make_asset(&mut group, Some(authority), [2u8; 32]).is_ok());
    assert_eq!(group.as_ref().unwrap().data.size, 1);
    assert!(make_asset(&mut group, Some(authority), [3u8; 32]).is_ok());
    assert_eq!(group.as_ref().unwrap().data.size, 2);

    // The third admission must fail with the capacity error and leave the
    // size untouched.
    let third = make_asset(&mut group, Some(authority), [4u8; 32]);
    assert_eq!(third.unwrap_err(), ZkNftError::GroupMaxSizeExceeded);
    assert_eq!(group.as_ref().unwrap().data.size, 2);
}

#[test]
fn an_unbounded_group_keeps_admitting() {
    let authority = [1u8; 32];
    let mut group = Some(GroupAccount { key: [20u8; 32], data: create_group(0, &authority) });
    for _ in 0..5 {
        assert!(make_asset(&mut group, Some(authority), [2u8; 32]).is_ok());
    }
    assert_eq!(group.as_ref().unwrap().data.size, 5);
}

#[test]
fn a_wrong_group_authority_is_refused() {
    let mut group = Some(GroupAccount { key: [20u8; 32], data: create_group(2, &[1u8; 32]) });
    let r = make_asset(&mut group, Some([9u8; 32]), [2u8; 32]);
    assert_eq!(r.unwrap_err(), ZkNftError::InvalidAuthority);
    assert_eq!(group.as_ref().unwrap().data.size, 0);

    let missing = make_asset(&mut group, None, [2u8; 32]);
    assert_eq!(missing.unwrap_err(), ZkNftError::InvalidAuthority);
}

#[test]
fn mismatched_asset_and_group_authorities_are_refused() {
    let authority = [1u8; 32];
    let mut group = Some(GroupAccount { key: [20u8; 32], data: create_group(0, &authority) });
    let trees = vec![[42u8; 32]];
    let r = create_asset(
        &mut group,
        &Some(authority),
        &Some([8u8; 32]),
        &[2u8; 32],
        dummy_proof(),
        &[17u8; 32],
        &address_params(),
        None,
        None,
        &trees,
    );
    assert_eq!(r.unwrap_err(), ZkNftError::InvalidAuthority);
    assert_eq!(group.as_ref().unwrap().data.size, 0);
}

#[test]
fn an_out_of_range_tree_selector_fails_address_derivation() {
    let trees = vec![[42u8; 32]];
    let mut params = address_params();
    params.address_merkle_tree_account_index = 7;
    let r = create_asset(
        &mut None,
        &None,
        &None,
        &[2u8; 32],
        dummy_proof(),
        &[17u8; 32],
        &params,
        None,
        None,
        &trees,
    );
    assert_eq!(r.unwrap_err(), ZkNftError::AddressDerivationFailed);
}

#[test]
fn create_asset_derives_the_ledger_address() {
    let r = make_asset(&mut None, None, [2u8; 32]).unwrap();
    let expected = light_system_program::sdk::address::derive_address(
        &anchor_lang::prelude::Pubkey::new_from_array([42u8; 32]),
        &[17u8; 32],
    )
    .unwrap();
    assert_eq!(r.event.asset_id, expected);
    assert_eq!(r.event.owner, [2u8; 32]);

    // One bundle: two registered addresses, no consumed record, the
    // base-asset and metadata records produced.
    assert_eq!(r.bundles.len(), 1);
    let b = &r.bundles[0];
    assert_eq!(b.new_address_params.len(), 2);
    assert_eq!(b.new_address_params[0].seed, [17u8; 32]);
    assert_eq!(b.input_compressed_accounts_with_merkle_context.len(), 0);
    assert_eq!(b.output_compressed_accounts.len(), 2);
    let base_record = &b.output_compressed_accounts[0].compressed_account;
    assert_eq!(base_record.address.unwrap(), expected);
    let base = BaseData {
        owner: [2u8; 32],
        delegate: None,
        delegate_role: DelegateRole::All,
        state: State::Unlocked,
    };
    let data = base_record.data.as_ref().unwrap();
    assert_eq!(data.data_hash, base.hash().unwrap());
    assert_eq!(data.data, zk_nft::serial::serialize_base_data(&base));
}

#[test]
fn a_stranger_cannot_transfer() {
    let base = BaseData {
        owner: [1u8; 32],
        delegate: None,
        delegate_role: DelegateRole::All,
        state: State::Unlocked,
    };
    let r = transfer(&[2u8; 32], &[3u8; 32], dummy_proof(), &[50u8; 32], &base, &input_pda());
    assert_eq!(r.unwrap_err(), ZkNftError::InvalidAuthority);
}

#[test]
fn the_owner_transfers_and_only_the_owner_changes() {
    let owner_a = [1u8; 32];
    let recipient_c = [3u8; 32];
    let base = BaseData {
        owner: owner_a,
        delegate: None,
        delegate_role: DelegateRole::All,
        state: State::Unlocked,
    };
    let r = transfer(&owner_a, &recipient_c, dummy_proof(), &[50u8; 32], &base, &input_pda()).unwrap();
    assert_eq!(r.event.owner, recipient_c);
    assert_eq!(r.event.asset_id, [50u8; 32]);

    // Exactly one consumed record, carrying the old commitment.
    let b = &r.bundle;
    assert_eq!(b.input_compressed_accounts_with_merkle_context.len(), 1);
    let old = &b.input_compressed_accounts_with_merkle_context[0];
    assert_eq!(old.compressed_account.data.as_ref().unwrap().data_hash, base.hash().unwrap());
    assert_eq!(old.root_index, 5);

    // Exactly one produced record: the same record owned by the recipient.
    assert_eq!(b.output_compressed_accounts.len(), 1);
    let new = &b.output_compressed_accounts[0].compressed_account;
    let expected = BaseData { owner: recipient_c, ..base };
    assert_eq!(new.data.as_ref().unwrap().data_hash, expected.hash().unwrap());
    assert_eq!(new.data.as_ref().unwrap().data, zk_nft::serial::serialize_base_data(&expected));
    assert_eq!(new.address.unwrap(), [50u8; 32]);
    assert_ne!(
        old.compressed_account.data.as_ref().unwrap().data_hash,
        new.data.as_ref().unwrap().data_hash
    );
}

#[test]
fn a_locked_asset_refuses_transfer_even_to_its_owner() {
    let owner = [1u8; 32];
    let base = BaseData {
        owner,
        delegate: None,
        delegate_role: DelegateRole::All,
        state: State::LockedByAuthority,
    };
    let r = transfer(&owner, &[3u8; 32], dummy_proof(), &[50u8; 32], &base, &input_pda());
    assert_eq!(r.unwrap_err(), ZkNftError::AssetIsLocked);
}

#[test]
fn a_lock_delegate_cannot_transfer_but_a_transfer_delegate_can() {
    let delegate = [9u8; 32];
    let lock_only = BaseData {
        owner: [1u8; 32],
        delegate: Some(delegate),
        delegate_role: DelegateRole::Lock,
        state: State::Unlocked,
    };
    let refused = transfer(&delegate, &[3u8; 32], dummy_proof(), &[50u8; 32], &lock_only, &input_pda());
    assert_eq!(refused.unwrap_err(), ZkNftError::InvalidAuthority);

    let transfer_and_burn = BaseData { delegate_role: DelegateRole::TransferAndBurn, ..lock_only };
    let allowed = transfer(
        &delegate,
        &[3u8; 32],
        dummy_proof(),
        &[50u8; 32],
        &transfer_and_burn,
        &input_pda(),
    );
    assert!(allowed.is_ok());
    assert_eq!(allowed.unwrap().event.owner, [3u8; 32]);
}

#[test]
fn an_immutable_asset_refuses_a_blob() {
    let asset_data = AssetData {
        mutable: false,
        group: None,
        authority: Some([1u8; 32]),
        has_attributes: false,
        has_blob: false,
    };
    let blob = Blob { content_type: String::from("text/plain"), tx_sig: [5u8; 64] };
    let trees = vec![[42u8; 32]];
    let r = create_blob(
        &[1u8; 32],
        &[50u8; 32],
        &asset_data,
        &blob,
        dummy_proof(),
        &input_pda(),
        &address_params(),
        &trees,
    );
    assert_eq!(r.unwrap_err(), ZkNftError::AssetNotMutable);
}

#[test]
fn attaching_a_blob_flips_the_flag_and_produces_three_records() {
    let authority = [1u8; 32];
    let asset_data = AssetData {
        mutable: true,
        group: None,
        authority: Some(authority),
        has_attributes: false,
        has_blob: false,
    };
    let blob = Blob { content_type: String::from("text/plain"), tx_sig: [5u8; 64] };
    let trees = vec![[42u8; 32]];
    let b = create_blob(
        &authority,
        &[50u8; 32],
        &asset_data,
        &blob,
        dummy_proof(),
        &input_pda(),
        &address_params(),
        &trees,
    )
    .unwrap();

    assert_eq!(b.new_address_params.len(), 1);
    assert_eq!(b.input_compressed_accounts_with_merkle_context.len(), 1);
    assert_eq!(b.output_compressed_accounts.len(), 2);
    let old = &b.input_compressed_accounts_with_merkle_context[0];
    assert_eq!(old.compressed_account.data.as_ref().unwrap().data_hash, asset_data.hash().unwrap());
    let blob_record = &b.output_compressed_accounts[0].compressed_account;
    assert_eq!(blob_record.data.as_ref().unwrap().data_hash, blob.hash().unwrap());
    let updated = AssetData { has_blob: true, ..asset_data };
    let meta_record = &b.output_compressed_accounts[1].compressed_account;
    assert_eq!(meta_record.data.as_ref().unwrap().data_hash, updated.hash().unwrap());
    assert_eq!(meta_record.data.as_ref().unwrap().data, zk_nft::serial::serialize_asset_data(&updated));
}

#[test]
fn a_wrong_metadata_authority_cannot_attach_a_blob() {
    let asset_data = AssetData {
        mutable: true,
        group: None,
        authority: Some([1u8; 32]),
        has_attributes: false,
        has_blob: false,
    };
    let blob = Blob { content_type: String::from("text/plain"), tx_sig: [5u8; 64] };
    let trees = vec![[42u8; 32]];
    let r = create_blob(
        &[2u8; 32],
        &[50u8; 32],
        &asset_data,
        &blob,
        dummy_proof(),
        &input_pda(),
        &address_params(),
        &trees,
    );
    assert_eq!(r.unwrap_err(), ZkNftError::InvalidAuthority);
}

#[test]
fn payloads_ride_in_their_own_bundles() {
    let trees = vec![[42u8; 32]];
    let blob = Blob { content_type: String::from("text/plain"), tx_sig: [5u8; 64] };
    let attrs = vec![zk_nft::state::Attribute {
        trait_type: String::from("color"),
        value: String::from("red"),
    }];
    let r = create_asset(
        &mut None,
        &None,
        &None,
        &[2u8; 32],
        dummy_proof(),
        &[17u8; 32],
        &address_params(),
        Some(zk_nft::create_asset::BlobParams { data: blob.clone(), proof: dummy_proof() }),
        Some(zk_nft::create_asset::AttributesParams { data: attrs.clone(), proof: dummy_proof() }),
        &trees,
    )
    .unwrap();

    // Three independent atomic units, in submission order.
    assert_eq!(r.bundles.len(), 3);
    let asset_id = r.event.asset_id;

    // The blob bundle produces one record at the blob's fixed sub-address.
    let blob_bundle = &r.bundles[1];
    assert_eq!(blob_bundle.new_address_params.len(), 1);
    assert_eq!(blob_bundle.input_compressed_accounts_with_merkle_context.len(), 0);
    assert_eq!(blob_bundle.output_compressed_accounts.len(), 1);
    let blob_seed = zk_nft::utils::get_asset_resource_seed(b"blob", &asset_id).unwrap();
    let blob_address = light_system_program::sdk::address::derive_address(
        &anchor_lang::prelude::Pubkey::new_from_array([42u8; 32]),
        &blob_seed,
    )
    .unwrap();
    let blob_record = &blob_bundle.output_compressed_accounts[0].compressed_account;
    assert_eq!(blob_record.address.unwrap(), blob_address);
    assert_eq!(blob_record.data.as_ref().unwrap().data_hash, blob.hash().unwrap());

    // The attribute bundle likewise, at the attribute set's sub-address.
    let attrs_bundle = &r.bundles[2];
    assert_eq!(attrs_bundle.output_compressed_accounts.len(), 1);
    let attrs_seed = zk_nft::utils::get_asset_resource_seed(b"attributes", &asset_id).unwrap();
    let attrs_address = light_system_program::sdk::address::derive_address(
        &anchor_lang::prelude::Pubkey::new_from_array([42u8; 32]),
        &attrs_seed,
    )
    .unwrap();
    let attrs_record = &attrs_bundle.output_compressed_accounts[0].compressed_account;
    assert_eq!(attrs_record.address.unwrap(), attrs_address);
    let expected_attrs =
        zk_nft::state::Attributes { group: None, attributes: attrs };
    assert_eq!(attrs_record.data.as_ref().unwrap().data_hash, expected_attrs.hash().unwrap());

    // A blob supplied at creation marks the metadata record.
    let meta_record = &r.bundles[0].output_compressed_accounts[1].compressed_account;
    let expected_meta = AssetData {
        mutable: true,
        group: None,
        authority: None,
        has_attributes: false,
        has_blob: true,
    };
    assert_eq!(meta_record.data.as_ref().unwrap().data_hash, expected_meta.hash().unwrap());
}

#[test]
fn the_metadata_address_is_reproducible_from_the_identity() {
    let r = make_asset(&mut None, None, [2u8; 32]).unwrap();
    let asset_id = r.event.asset_id;
    let meta_seed = zk_nft::utils::get_asset_resource_seed(b"asset_data", &asset_id).unwrap();
    let meta_address = light_system_program::sdk::address::derive_address(
        &anchor_lang::prelude::Pubkey::new_from_array([42u8; 32]),
        &meta_seed,
    )
    .unwrap();
    let meta_record = &r.bundles[0].output_compressed_accounts[1].compressed_account;
    assert_eq!(meta_record.address.unwrap(), meta_address);
    assert_eq!(r.bundles[0].new_address_params[1].seed, meta_seed);
}
