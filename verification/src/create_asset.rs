//! Creating an asset: after the group-admission and authority-consistency
//! gates pass, the base-asset and metadata records are produced as two new
//! commitments in one bundle; a supplied blob or attribute payload is
//! submitted as its own additional bundle, each an independent atomic unit.
//! The group's size is incremented only after every other check has passed,
//! and exactly once per successful creation.
use vstd::prelude::*;
use vstd::string::StringSliceAdditionalSpecFns;
use crate::bundle::{
    bundle_framing, is_new_address, is_output_record, make_bundle, make_new_address,
    make_output_record, CompressedProof, InstructionDataInvokeCpi, NewAddressParamsPacked,
    OutputCompressedAccountWithPackedContext, PackedCompressedAccountWithMerkleContext,
};
use crate::commit::{
    arity_ok, asset_data_commitment, attributes_commitment, base_data_commitment, blob_commitment,
};
use crate::crypto::{derive_address, key_eq};
use crate::errors::ZkNftError;
use crate::serial::{
    account_discriminator, asset_data_bytes, attribute_list_serializable, attributes_bytes,
    base_data_bytes, blob_bytes, blob_serializable, discriminator_of, serialize_asset_data,
    serialize_attributes, serialize_base_data, serialize_blob,
};
use crate::state::{
    AssetData, Attribute, Attributes, BaseData, DelegateRole, GroupAccount, NewAddressParams,
    OwnerUpdatedEvent, State,
};
use crate::utils::{derived_address, get_asset_resource_seed, resolve_tree_key, resource_seed};

verus! {

/// A blob payload supplied at creation, with the proof for its own bundle.
pub struct BlobParams {
    pub data: crate::state::Blob,
    pub proof: CompressedProof,
}

/// An attribute payload supplied at creation, with the proof for its own
/// bundle.
pub struct AttributesParams {
    pub data: Vec<Attribute>,
    pub proof: CompressedProof,
}

/// The outcome of a creation: the ownership notification and the bundles
/// to submit in order, each an independent atomic unit.
#[derive(Debug)]
pub struct CreateAssetResult {
    pub event: OwnerUpdatedEvent,
    pub bundles: Vec<InstructionDataInvokeCpi>,
}

/// The base-asset record every asset starts with: unlocked, no delegate.
pub open spec fn initial_base_data(owner: [u8; 32]) -> BaseData {
    BaseData {
        owner,
        delegate: None,
        delegate_role: DelegateRole::All,
        state: State::Unlocked,
    }
}

/// The metadata record every asset starts with: mutable, nothing attached
/// but a blob supplied at creation.
pub open spec fn initial_asset_data(
    authority: Option<[u8; 32]>,
    group: Option<[u8; 32]>,
    has_blob: bool,
) -> AssetData {
    AssetData { mutable: true, group, authority, has_attributes: false, has_blob }
}

/// The address of the group account a creation references, if any.
pub open spec fn group_key_of(g: Option<GroupAccount>) -> Option<[u8; 32]> {
    match g {
        Option::Some(ga) => Some(ga.key),
        Option::None => None,
    }
}

/// How many hash inputs the attribute payload would contribute.
pub open spec fn attributes_input_count(
    ap: AttributesParams,
    group_key: Option<[u8; 32]>,
) -> int {
    2 * ap.data@.len() + (if group_key is Some {
        1int
    } else {
        0int
    })
}

/// Which local check refuses a creation, if any, in evaluation order: the
/// group-authority gate, the group-admission gate, the
/// authority-consistency gate, the tree selector, the hasher's arity.
pub open spec fn create_asset_error(
    group: Option<GroupAccount>,
    group_authority: Option<[u8; 32]>,
    authority: Option<[u8; 32]>,
    tree_count: int,
    tree_index: int,
    attributes_params: Option<AttributesParams>,
) -> Option<ZkNftError> {
    if group is Some && !(group_authority is Some && group_authority->0@
        == group->0.data.authority@) {
        Some(ZkNftError::InvalidAuthority)
    } else if group is Some && group->0.data.max_size > 0 && group->0.data.size
        >= group->0.data.max_size {
        Some(ZkNftError::GroupMaxSizeExceeded)
    } else if authority is Some && group_authority is Some && authority->0@
        != group_authority->0@ {
        Some(ZkNftError::InvalidAuthority)
    } else if !(tree_index < tree_count) {
        Some(ZkNftError::AddressDerivationFailed)
    } else if attributes_params is Some && !arity_ok(
        attributes_input_count(attributes_params->0, group_key_of(group)),
    ) {
        Some(ZkNftError::HashingFailed)
    } else {
        None
    }
}

/// The first bundle of a creation: it registers the asset's address and
/// its metadata sub-address, consumes nothing, and produces the initial
/// base-asset and metadata records.
pub open spec fn main_bundle_ok(
    b: InstructionDataInvokeCpi,
    proof: CompressedProof,
    params: NewAddressParams,
    tree_key: Seq<u8>,
    base_data_seed: Seq<u8>,
    recipient: [u8; 32],
    authority: Option<[u8; 32]>,
    group_key: Option<[u8; 32]>,
    has_blob: bool,
) -> bool {
    let asset_id = derived_address(tree_key, base_data_seed);
    let meta_seed = resource_seed("asset_data".spec_bytes(), asset_id);
    let base = initial_base_data(recipient);
    let meta = initial_asset_data(authority, group_key, has_blob);
    &&& bundle_framing(b, proof)
    &&& b.new_address_params@.len() == 2
    &&& is_new_address(b.new_address_params@[0], base_data_seed, params)
    &&& is_new_address(b.new_address_params@[1], meta_seed, params)
    &&& b.input_compressed_accounts_with_merkle_context@.len() == 0
    &&& b.output_compressed_accounts@.len() == 2
    &&& is_output_record(
        b.output_compressed_accounts@[0],
        asset_id,
        account_discriminator("BaseData".spec_bytes()),
        base_data_bytes(base),
        base_data_commitment(base),
        0,
    )
    &&& is_output_record(
        b.output_compressed_accounts@[1],
        derived_address(tree_key, meta_seed),
        account_discriminator("AssetData".spec_bytes()),
        asset_data_bytes(meta),
        asset_data_commitment(meta),
        0,
    )
}

/// The blob bundle of a creation: it registers the blob's fixed
/// sub-address and produces the blob record, consuming nothing.
pub open spec fn blob_bundle_ok(
    b: InstructionDataInvokeCpi,
    bp: BlobParams,
    params: NewAddressParams,
    tree_key: Seq<u8>,
    asset_id: Seq<u8>,
) -> bool {
    let seed = resource_seed("blob".spec_bytes(), asset_id);
    &&& bundle_framing(b, bp.proof)
    &&& b.new_address_params@.len() == 1
    &&& is_new_address(b.new_address_params@[0], seed, params)
    &&& b.input_compressed_accounts_with_merkle_context@.len() == 0
    &&& b.output_compressed_accounts@.len() == 1
    &&& is_output_record(
        b.output_compressed_accounts@[0],
        derived_address(tree_key, seed),
        account_discriminator("Blob".spec_bytes()),
        blob_bytes(bp.data),
        blob_commitment(bp.data),
        0,
    )
}

/// The attribute bundle of a creation: it registers the attribute set's
/// fixed sub-address and produces the attribute record — filed under the
/// blob record tag — consuming nothing.
pub open spec fn attributes_bundle_ok(
    b: InstructionDataInvokeCpi,
    ap: AttributesParams,
    group_key: Option<[u8; 32]>,
    params: NewAddressParams,
    tree_key: Seq<u8>,
    asset_id: Seq<u8>,
) -> bool {
    let attrs = Attributes { group: group_key, attributes: ap.data };
    let seed = resource_seed("attributes".spec_bytes(), asset_id);
    &&& bundle_framing(b, ap.proof)
    &&& b.new_address_params@.len() == 1
    &&& is_new_address(b.new_address_params@[0], seed, params)
    &&& b.input_compressed_accounts_with_merkle_context@.len() == 0
    &&& b.output_compressed_accounts@.len() == 1
    &&& is_output_record(
        b.output_compressed_accounts@[0],
        derived_address(tree_key, seed),
        account_discriminator("Blob".spec_bytes()),
        attributes_bytes(attrs),
        attributes_commitment(attrs),
        0,
    )
}

/// Builds the bundles of a creation: the base-asset/metadata bundle, then
/// one bundle per supplied payload, each its own atomic unit. The one
/// local refusal left at this stage is the hasher's bounded arity on the
/// attribute payload.
pub fn create_compressed_pdas(
    recipient: &[u8; 32],
    authority: &Option<[u8; 32]>,
    group_key: &Option<[u8; 32]>,
    proof: CompressedProof,
    new_address_params_packed: &NewAddressParams,
    merkle_tree_key: &[u8; 32],
    asset_id: &[u8; 32],
    base_data_seed: &[u8; 32],
    blob_params: Option<BlobParams>,
    attributes_params: Option<AttributesParams>,
) -> (r: Result<Vec<InstructionDataInvokeCpi>, ZkNftError>)
    requires
        asset_id@ == derived_address(merkle_tree_key@, base_data_seed@),
        blob_params is Some ==> blob_serializable(blob_params->0.data),
        attributes_params is Some ==> attribute_list_serializable(attributes_params->0.data@),
    ensures
        r is Err <==> (attributes_params is Some && !arity_ok(
            attributes_input_count(attributes_params->0, *group_key),
        )),
        r is Err ==> r->Err_0 == ZkNftError::HashingFailed,
        r is Ok ==> r->Ok_0@.len() == 1 + (if blob_params is Some {
            1int
        } else {
            0int
        }) + (if attributes_params is Some {
            1int
        } else {
            0int
        }),
        r is Ok ==> main_bundle_ok(
            r->Ok_0@[0],
            proof,
            *new_address_params_packed,
            merkle_tree_key@,
            base_data_seed@,
            *recipient,
            *authority,
            *group_key,
            blob_params is Some,
        ),
        r is Ok && blob_params is Some ==> blob_bundle_ok(
            r->Ok_0@[1],
            blob_params->0,
            *new_address_params_packed,
            merkle_tree_key@,
            asset_id@,
        ),
        r is Ok && attributes_params is Some ==> attributes_bundle_ok(
            r->Ok_0@[
                if blob_params is Some {
                    2int
                } else {
                    1int
                }
            ],
            attributes_params->0,
            *group_key,
            *new_address_params_packed,
            merkle_tree_key@,
            asset_id@,
        ),
{
    let mut bundles: Vec<InstructionDataInvokeCpi> = Vec::new();

    // The base-asset record at the asset's own address.
    let base_data = BaseData {
        owner: *recipient,
        delegate: None,
        delegate_role: DelegateRole::All,
        state: State::Unlocked,
    };
    let base_bytes = serialize_base_data(&base_data);
    let base_hash = match base_data.hash() {
        Ok(h) => h,
        Err(e) => {
            return Err(e);
        },
    };
    let base_record = make_output_record(
        *asset_id,
        discriminator_of("BaseData"),
        base_bytes,
        base_hash,
        0,
    );

    // The metadata record at its fixed sub-address.
    let asset_data = AssetData {
        mutable: true,
        group: *group_key,
        authority: *authority,
        has_attributes: false,
        has_blob: blob_params.is_some(),
    };
    let meta_bytes = serialize_asset_data(&asset_data);
    let meta_hash = match asset_data.hash() {
        Ok(h) => h,
        Err(e) => {
            return Err(e);
        },
    };
    let meta_seed = match get_asset_resource_seed("asset_data".as_bytes(), asset_id) {
        Ok(s) => s,
        Err(e) => {
            return Err(e);
        },
    };
    let meta_address = derive_address(merkle_tree_key, &meta_seed);
    let meta_record = make_output_record(
        meta_address,
        discriminator_of("AssetData"),
        meta_bytes,
        meta_hash,
        0,
    );

    let mut new_addresses: Vec<NewAddressParamsPacked> = Vec::new();
    new_addresses.push(make_new_address(*base_data_seed, new_address_params_packed));
    new_addresses.push(make_new_address(meta_seed, new_address_params_packed));
    let mut outputs: Vec<OutputCompressedAccountWithPackedContext> = Vec::new();
    outputs.push(base_record);
    outputs.push(meta_record);
    let empty_inputs: Vec<PackedCompressedAccountWithMerkleContext> = Vec::new();
    bundles.push(make_bundle(proof, new_addresses, empty_inputs, outputs));

    // The blob bundle, when a blob payload was supplied.
    if let Some(bp) = blob_params {
        let blob_seed = match get_asset_resource_seed("blob".as_bytes(), asset_id) {
            Ok(s) => s,
            Err(e) => {
                return Err(e);
            },
        };
        let blob_address = derive_address(merkle_tree_key, &blob_seed);
        let blob_bytes_v = serialize_blob(&bp.data);
        let blob_hash = match bp.data.hash() {
            Ok(h) => h,
            Err(e) => {
                return Err(e);
            },
        };
        let blob_record = make_output_record(
            blob_address,
            discriminator_of("Blob"),
            blob_bytes_v,
            blob_hash,
            0,
        );
        let mut blob_addresses: Vec<NewAddressParamsPacked> = Vec::new();
        blob_addresses.push(make_new_address(blob_seed, new_address_params_packed));
        let mut blob_outputs: Vec<OutputCompressedAccountWithPackedContext> = Vec::new();
        blob_outputs.push(blob_record);
        let blob_inputs: Vec<PackedCompressedAccountWithMerkleContext> = Vec::new();
        bundles.push(make_bundle(bp.proof, blob_addresses, blob_inputs, blob_outputs));
    }

    // The attribute bundle, when an attribute payload was supplied.
    if let Some(ap) = attributes_params {
        let attrs_seed = match get_asset_resource_seed("attributes".as_bytes(), asset_id) {
            Ok(s) => s,
            Err(e) => {
                return Err(e);
            },
        };
        let attrs_address = derive_address(merkle_tree_key, &attrs_seed);
        let attrs = Attributes { group: *group_key, attributes: ap.data };
        let attrs_bytes = serialize_attributes(&attrs);
        let attrs_hash = match attrs.hash() {
            Ok(h) => h,
            Err(_) => {
                return Err(ZkNftError::HashingFailed);
            },
        };
        let attrs_record = make_output_record(
            attrs_address,
            discriminator_of("Blob"),
            attrs_bytes,
            attrs_hash,
            0,
        );
        let mut attrs_addresses: Vec<NewAddressParamsPacked> = Vec::new();
        attrs_addresses.push(make_new_address(attrs_seed, new_address_params_packed));
        let mut attrs_outputs: Vec<OutputCompressedAccountWithPackedContext> = Vec::new();
        attrs_outputs.push(attrs_record);
        let attrs_inputs: Vec<PackedCompressedAccountWithMerkleContext> = Vec::new();
        bundles.push(make_bundle(ap.proof, attrs_addresses, attrs_inputs, attrs_outputs));
    }

    Ok(bundles)
}

/// Creates an asset for `recipient`, optionally admitting it to a group
/// and attaching payloads. All checks fail closed before any ledger work;
/// the group's size is incremented only after every check has passed. On
/// success the returned bundles are submitted in order, each an
/// independent atomic unit.
pub fn create_asset(
    group: &mut Option<GroupAccount>,
    group_authority: &Option<[u8; 32]>,
    authority: &Option<[u8; 32]>,
    recipient: &[u8; 32],
    proof: CompressedProof,
    base_data_seed: &[u8; 32],
    new_address_params_packed: &NewAddressParams,
    blob_params: Option<BlobParams>,
    attributes_params: Option<AttributesParams>,
    remaining_tree_keys: &Vec<[u8; 32]>,
) -> (r: Result<CreateAssetResult, ZkNftError>)
    requires
        (*old(group)) is Some ==> (*old(group))->0.data.size < u64::MAX,
        blob_params is Some ==> blob_serializable(blob_params->0.data),
        attributes_params is Some ==> attribute_list_serializable(attributes_params->0.data@),
    ensures
        r is Err <==> create_asset_error(
            *old(group),
            *group_authority,
            *authority,
            remaining_tree_keys@.len() as int,
            new_address_params_packed.address_merkle_tree_account_index as int,
            attributes_params,
        ) is Some,
        r is Err ==> r->Err_0 == create_asset_error(
            *old(group),
            *group_authority,
            *authority,
            remaining_tree_keys@.len() as int,
            new_address_params_packed.address_merkle_tree_account_index as int,
            attributes_params,
        )->0 && *final(group) == *old(group),
        r is Ok ==> ((*old(group)) is Some <==> (*final(group)) is Some),
        r is Ok && (*old(group)) is Some ==> (*final(group))->0.key == (*old(group))->0.key
            && (*final(group))->0.data.size == (*old(group))->0.data.size + 1
            && (*final(group))->0.data.max_size == (*old(group))->0.data.max_size
            && (*final(group))->0.data.authority == (*old(group))->0.data.authority,
        r is Ok ==> r->Ok_0.event.asset_id@ == derived_address(
            remaining_tree_keys@[
                new_address_params_packed.address_merkle_tree_account_index as int
            ]@,
            base_data_seed@,
        ) && r->Ok_0.event.owner@ == recipient@,
        r is Ok ==> r->Ok_0.bundles@.len() == 1 + (if blob_params is Some {
            1int
        } else {
            0int
        }) + (if attributes_params is Some {
            1int
        } else {
            0int
        }),
        r is Ok ==> main_bundle_ok(
            r->Ok_0.bundles@[0],
            proof,
            *new_address_params_packed,
            remaining_tree_keys@[
                new_address_params_packed.address_merkle_tree_account_index as int
            ]@,
            base_data_seed@,
            *recipient,
            *authority,
            group_key_of(*old(group)),
            blob_params is Some,
        ),
        r is Ok && blob_params is Some ==> blob_bundle_ok(
            r->Ok_0.bundles@[1],
            blob_params->0,
            *new_address_params_packed,
            remaining_tree_keys@[
                new_address_params_packed.address_merkle_tree_account_index as int
            ]@,
            derived_address(
                remaining_tree_keys@[
                    new_address_params_packed.address_merkle_tree_account_index as int
                ]@,
                base_data_seed@,
            ),
        ),
        r is Ok && attributes_params is Some ==> attributes_bundle_ok(
            r->Ok_0.bundles@[
                if blob_params is Some {
                    2int
                } else {
                    1int
                }
            ],
            attributes_params->0,
            group_key_of(*old(group)),
            *new_address_params_packed,
            remaining_tree_keys@[
                new_address_params_packed.address_merkle_tree_account_index as int
            ]@,
            derived_address(
                remaining_tree_keys@[
                    new_address_params_packed.address_merkle_tree_account_index as int
                ]@,
                base_data_seed@,
            ),
        ),
{
    // Group admission: the supplied group authority must sign and match,
    // and a bounded group must have room.
    let group_key: Option<[u8; 32]> = match group {
        Some(ga) => {
            let authority_ok = match group_authority {
                Some(k) => key_eq(k, &ga.data.authority),
                None => false,
            };
            if !authority_ok {
                return Err(ZkNftError::InvalidAuthority);
            }
            if ga.data.max_size > 0 && ga.data.size >= ga.data.max_size {
                return Err(ZkNftError::GroupMaxSizeExceeded);
            }
            Some(ga.key)
        },
        None => None,
    };

    // Authority consistency: an explicit per-asset authority must be the
    // group authority when both are supplied.
    if let Some(a) = authority {
        if let Some(ga) = group_authority {
            if !key_eq(a, ga) {
                return Err(ZkNftError::InvalidAuthority);
            }
        }
    }

    let merkle_tree_key = match resolve_tree_key(
        remaining_tree_keys,
        new_address_params_packed.address_merkle_tree_account_index,
    ) {
        Ok(k) => k,
        Err(e) => {
            return Err(e);
        },
    };
    let asset_id = derive_address(&merkle_tree_key, base_data_seed);
    let event = OwnerUpdatedEvent { asset_id, owner: *recipient };

    let bundles = match create_compressed_pdas(
        recipient,
        authority,
        &group_key,
        proof,
        new_address_params_packed,
        &merkle_tree_key,
        &asset_id,
        base_data_seed,
        blob_params,
        attributes_params,
    ) {
        Ok(b) => b,
        Err(e) => {
            return Err(e);
        },
    };

    // Every check has passed: apply the one local mutation.
    match group {
        Some(ga) => {
            ga.data.size = ga.data.size + 1;
        },
        None => {},
    }

    Ok(CreateAssetResult { event, bundles })
}

} // verus!
