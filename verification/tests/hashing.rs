use zk_nft::state::{AssetData, Attribute, Attributes, BaseData, Blob, DelegateRole, State};

fn base(owner: [u8; 32]) -> BaseData {
    BaseData { owner, delegate: None, delegate_role: DelegateRole::All, state: State::Unlocked }
}

#[test]
fn base_data_commitment_is_deterministic() {
    let a = base([7u8; 32]);
    let b = base([7u8; 32]);
    assert_eq!(a.hash().unwrap(), b.hash().unwrap());
}

#[test]
fn base_data_commitment_matches_field_order_of_the_hasher() {
    // Recompute the commitment directly with the external hashers:
    // owner digest, state byte, (no delegate), role byte.
    let owner = [7u8; 32];
    let d = base(owner);
    let owner_hash = light_utils::hash_to_bn254_field_size_be(&owner).unwrap().0;
    let expected = <light_hasher::Poseidon as light_hasher::Hasher>::hashv(&[
        owner_hash.as_slice(),
        &[0u8],
        &[0u8],
    ])
    .unwrap();
    assert_eq!(d.hash().unwrap(), expected);
}

#[test]
fn base_data_commitment_includes_delegate_only_when_set() {
    let mut with_delegate = base([7u8; 32]);
    with_delegate.delegate = Some([9u8; 32]);
    let without_delegate = base([7u8; 32]);
    assert_ne!(with_delegate.hash().unwrap(), without_delegate.hash().unwrap());

    let owner_hash = light_utils::hash_to_bn254_field_size_be(&[7u8; 32]).unwrap().0;
    let delegate_hash = light_utils::hash_to_bn254_field_size_be(&[9u8; 32]).unwrap().0;
    let expected = <light_hasher::Poseidon as light_hasher::Hasher>::hashv(&[
        owner_hash.as_slice(),
        &[0u8],
        delegate_hash.as_slice(),
        &[0u8],
    ])
    .unwrap();
    assert_eq!(with_delegate.hash().unwrap(), expected);
}

#[test]
fn base_data_commitment_changes_with_each_field() {
    let reference = base([7u8; 32]);
    let mut other_owner = base([8u8; 32]);
    let mut locked = base([7u8; 32]);
    locked.state = State::LockedByAuthority;
    let mut other_role = base([7u8; 32]);
    other_role.delegate_role = DelegateRole::Burn;
    other_owner.delegate = None;
    assert_ne!(reference.hash().unwrap(), other_owner.hash().unwrap());
    assert_ne!(reference.hash().unwrap(), locked.hash().unwrap());
    assert_ne!(reference.hash().unwrap(), other_role.hash().unwrap());
}

#[test]
fn asset_data_commitment_skips_absent_optional_fields() {
    let bare = AssetData {
        mutable: true,
        group: None,
        authority: None,
        has_attributes: false,
        has_blob: false,
    };
    let expected = <light_hasher::Poseidon as light_hasher::Hasher>::hashv(&[
        &[1u8],
        &[0u8],
        &[0u8],
    ])
    .unwrap();
    assert_eq!(bare.hash().unwrap(), expected);

    let with_group = AssetData { group: Some([3u8; 32]), ..bare };
    let group_hash = light_utils::hash_to_bn254_field_size_be(&[3u8; 32]).unwrap().0;
    let expected_with_group = <light_hasher::Poseidon as light_hasher::Hasher>::hashv(&[
        &[1u8],
        group_hash.as_slice(),
        &[0u8],
        &[0u8],
    ])
    .unwrap();
    assert_eq!(with_group.hash().unwrap(), expected_with_group);
    assert_ne!(bare.hash().unwrap(), with_group.hash().unwrap());
}

#[test]
fn asset_data_commitment_is_deterministic() {
    let d = AssetData {
        mutable: false,
        group: Some([3u8; 32]),
        authority: Some([4u8; 32]),
        has_attributes: true,
        has_blob: true,
    };
    assert_eq!(d.hash().unwrap(), d.hash().unwrap());
}

#[test]
fn blob_commitment_reduces_long_fields_first() {
    let blob = Blob { content_type: String::from("application/json"), tx_sig: [5u8; 64] };
    let ct_hash = light_utils::hash_to_bn254_field_size_be("application/json".as_bytes())
        .unwrap()
        .0;
    let sig_hash = light_utils::hash_to_bn254_field_size_be(&[5u8; 64]).unwrap().0;
    let expected = <light_hasher::Poseidon as light_hasher::Hasher>::hashv(&[
        ct_hash.as_slice(),
        sig_hash.as_slice(),
    ])
    .unwrap();
    assert_eq!(blob.hash().unwrap(), expected);
}

#[test]
fn blob_commitment_changes_with_the_content_type() {
    let a = Blob { content_type: String::from("text/plain"), tx_sig: [5u8; 64] };
    let b = Blob { content_type: String::from("text/html"), tx_sig: [5u8; 64] };
    assert_ne!(a.hash().unwrap(), b.hash().unwrap());
}

#[test]
fn attributes_commitment_orders_pairs_and_appends_group() {
    let attrs = Attributes {
        group: Some([6u8; 32]),
        attributes: vec![
            Attribute { trait_type: String::from("color"), value: String::from("red") },
        ],
    };
    let t_hash = light_utils::hash_to_bn254_field_size_be("color".as_bytes()).unwrap().0;
    let v_hash = light_utils::hash_to_bn254_field_size_be("red".as_bytes()).unwrap().0;
    let g_hash = light_utils::hash_to_bn254_field_size_be(&[6u8; 32]).unwrap().0;
    let expected = <light_hasher::Poseidon as light_hasher::Hasher>::hashv(&[
        t_hash.as_slice(),
        v_hash.as_slice(),
        g_hash.as_slice(),
    ])
    .unwrap();
    assert_eq!(attrs.hash().unwrap(), expected);
}

#[test]
fn attributes_commitment_fails_beyond_the_hasher_arity() {
    let many: Vec<Attribute> = (0..7)
        .map(|i| Attribute { trait_type: format!("t{}", i), value: format!("v{}", i) })
        .collect();
    let attrs = Attributes { group: None, attributes: many };
    assert!(attrs.hash().is_err());

    let empty = Attributes { group: None, attributes: Vec::new() };
    assert!(empty.hash().is_err());
}
