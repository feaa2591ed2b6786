//! Attaching a content blob to an asset: after the mutability and
//! metadata-authority gates pass, one bundle registers the blob's fixed
//! sub-address, consumes the current metadata commitment and produces the
//! blob record together with the metadata record whose blob flag is set.
use vstd::prelude::*;
use vstd::string::StringSliceAdditionalSpecFns;
use crate::bundle::{
    bundle_framing, is_input_record, is_new_address, is_output_record, make_bundle,
    make_input_record, make_new_address, make_output_record, CompressedProof,
    InstructionDataInvokeCpi, NewAddressParamsPacked, OutputCompressedAccountWithPackedContext,
    PackedCompressedAccountWithMerkleContext,
};
use crate::commit::{asset_data_commitment, blob_commitment};
use crate::crypto::{derive_address, key_eq};
use crate::errors::ZkNftError;
use crate::serial::{
    account_discriminator, asset_data_bytes, blob_bytes, blob_serializable, discriminator_of,
    serialize_asset_data, serialize_blob,
};
use crate::state::{AssetData, Blob, NewAddressParams, PackedInputCompressedPda};
use crate::utils::{asset_resource_address, get_asset_resource_seed, resolve_tree_key};

verus! {

/// The metadata record after a blob is attached: only the blob flag flips.
pub open spec fn with_blob(d: AssetData) -> AssetData {
    AssetData {
        mutable: d.mutable,
        group: d.group,
        authority: d.authority,
        has_attributes: d.has_attributes,
        has_blob: true,
    }
}

/// Which local check refuses a blob attachment, if any: the mutation gate
/// first, then the metadata-authority gate, then the tree selector.
pub open spec fn create_blob_error(
    asset_data: AssetData,
    authority: Seq<u8>,
    tree_count: int,
    tree_index: int,
) -> Option<ZkNftError> {
    if !asset_data.mutable {
        Some(ZkNftError::AssetNotMutable)
    } else if !(asset_data.authority is Some && asset_data.authority->0@ == authority) {
        Some(ZkNftError::InvalidAuthority)
    } else if !(tree_index < tree_count) {
        Some(ZkNftError::AddressDerivationFailed)
    } else {
        None
    }
}

/// The consumed and produced metadata records of a blob attachment: the
/// caller-supplied current record located by its selectors, and the same
/// record with its blob flag set, at the same permanent address.
pub fn get_old_and_new_asset_data_compressed_pda(
    asset_data_address: &[u8; 32],
    old_asset_data: &AssetData,
    asset_data_input: &PackedInputCompressedPda,
) -> (r: Result<
    (PackedCompressedAccountWithMerkleContext, OutputCompressedAccountWithPackedContext),
    ZkNftError,
>)
    requires
        old_asset_data.authority is Some,
    ensures
        r is Ok,
        is_input_record(
            r->Ok_0.0,
            asset_data_address@,
            account_discriminator("AssetData".spec_bytes()),
            asset_data_bytes(*old_asset_data),
            asset_data_commitment(*old_asset_data),
            asset_data_input.merkle_context,
            asset_data_input.root_index,
        ),
        is_output_record(
            r->Ok_0.1,
            asset_data_address@,
            account_discriminator("AssetData".spec_bytes()),
            asset_data_bytes(with_blob(*old_asset_data)),
            asset_data_commitment(with_blob(*old_asset_data)),
            asset_data_input.merkle_context.merkle_tree_pubkey_index,
        ),
{
    let disc = discriminator_of("AssetData");
    let old_bytes = serialize_asset_data(old_asset_data);
    let old_hash = match old_asset_data.hash() {
        Ok(h) => h,
        Err(e) => {
            return Err(e);
        },
    };
    let old_record = make_input_record(
        *asset_data_address,
        disc,
        old_bytes,
        old_hash,
        asset_data_input.merkle_context,
        asset_data_input.root_index,
    );
    let new_asset_data = AssetData {
        mutable: old_asset_data.mutable,
        group: old_asset_data.group,
        authority: old_asset_data.authority,
        has_attributes: old_asset_data.has_attributes,
        has_blob: true,
    };
    let new_bytes = serialize_asset_data(&new_asset_data);
    let new_hash = match new_asset_data.hash() {
        Ok(h) => h,
        Err(e) => {
            return Err(e);
        },
    };
    let new_record = make_output_record(
        *asset_data_address,
        disc,
        new_bytes,
        new_hash,
        asset_data_input.merkle_context.merkle_tree_pubkey_index,
    );
    Ok((old_record, new_record))
}

/// The produced blob record, going into the same tree as the metadata
/// record it accompanies.
pub fn get_blob_compressed_pda(
    blob_address: &[u8; 32],
    blob: &Blob,
    asset_data_input: &PackedInputCompressedPda,
) -> (r: Result<OutputCompressedAccountWithPackedContext, ZkNftError>)
    requires
        blob_serializable(*blob),
    ensures
        r is Ok,
        is_output_record(
            r->Ok_0,
            blob_address@,
            account_discriminator("Blob".spec_bytes()),
            blob_bytes(*blob),
            blob_commitment(*blob),
            asset_data_input.merkle_context.merkle_tree_pubkey_index,
        ),
{
    let disc = discriminator_of("Blob");
    let data = serialize_blob(blob);
    let data_hash = match blob.hash() {
        Ok(h) => h,
        Err(e) => {
            return Err(e);
        },
    };
    Ok(
        make_output_record(
            *blob_address,
            disc,
            data,
            data_hash,
            asset_data_input.merkle_context.merkle_tree_pubkey_index,
        ),
    )
}

/// Attaches `blob` to the asset at `asset_address`. Fails closed on the
/// mutation gate, the metadata-authority gate and the tree selector; on
/// success the bundle registers the blob's fixed sub-address, consumes the
/// current metadata commitment and produces the blob record and the
/// updated metadata record.
pub fn create_blob(
    authority: &[u8; 32],
    asset_address: &[u8; 32],
    asset_data: &AssetData,
    blob: &Blob,
    proof: CompressedProof,
    asset_data_input: &PackedInputCompressedPda,
    blob_address_params: &NewAddressParams,
    remaining_tree_keys: &Vec<[u8; 32]>,
) -> (r: Result<InstructionDataInvokeCpi, ZkNftError>)
    requires
        blob_serializable(*blob),
    ensures
        r is Err <==> create_blob_error(
            *asset_data,
            authority@,
            remaining_tree_keys@.len() as int,
            blob_address_params.address_merkle_tree_account_index as int,
        ) is Some,
        r is Err ==> r->Err_0 == create_blob_error(
            *asset_data,
            authority@,
            remaining_tree_keys@.len() as int,
            blob_address_params.address_merkle_tree_account_index as int,
        )->0,
        r is Ok ==> bundle_framing(r->Ok_0, proof),
        r is Ok ==> r->Ok_0.new_address_params@.len() == 1 && is_new_address(
            r->Ok_0.new_address_params@[0],
            crate::utils::resource_seed("blob".spec_bytes(), asset_address@),
            *blob_address_params,
        ),
        r is Ok ==> r->Ok_0.input_compressed_accounts_with_merkle_context@.len() == 1
            && is_input_record(
            r->Ok_0.input_compressed_accounts_with_merkle_context@[0],
            asset_resource_address(
                remaining_tree_keys@[
                    blob_address_params.address_merkle_tree_account_index as int
                ]@,
                "asset_data".spec_bytes(),
                asset_address@,
            ),
            account_discriminator("AssetData".spec_bytes()),
            asset_data_bytes(*asset_data),
            asset_data_commitment(*asset_data),
            asset_data_input.merkle_context,
            asset_data_input.root_index,
        ),
        r is Ok ==> r->Ok_0.output_compressed_accounts@.len() == 2 && is_output_record(
            r->Ok_0.output_compressed_accounts@[0],
            asset_resource_address(
                remaining_tree_keys@[
                    blob_address_params.address_merkle_tree_account_index as int
                ]@,
                "blob".spec_bytes(),
                asset_address@,
            ),
            account_discriminator("Blob".spec_bytes()),
            blob_bytes(*blob),
            blob_commitment(*blob),
            asset_data_input.merkle_context.merkle_tree_pubkey_index,
        ) && is_output_record(
            r->Ok_0.output_compressed_accounts@[1],
            asset_resource_address(
                remaining_tree_keys@[
                    blob_address_params.address_merkle_tree_account_index as int
                ]@,
                "asset_data".spec_bytes(),
                asset_address@,
            ),
            account_discriminator("AssetData".spec_bytes()),
            asset_data_bytes(with_blob(*asset_data)),
            asset_data_commitment(with_blob(*asset_data)),
            asset_data_input.merkle_context.merkle_tree_pubkey_index,
        ),
{
    if !asset_data.mutable {
        return Err(ZkNftError::AssetNotMutable);
    }
    let authority_ok = match &asset_data.authority {
        Some(a) => key_eq(a, authority),
        None => false,
    };
    if !authority_ok {
        return Err(ZkNftError::InvalidAuthority);
    }
    let tree_key = match resolve_tree_key(
        remaining_tree_keys,
        blob_address_params.address_merkle_tree_account_index,
    ) {
        Ok(k) => k,
        Err(e) => {
            return Err(e);
        },
    };

    let asset_data_seed = match get_asset_resource_seed("asset_data".as_bytes(), asset_address) {
        Ok(s) => s,
        Err(e) => {
            return Err(e);
        },
    };
    let asset_data_address = derive_address(&tree_key, &asset_data_seed);
    let (old_state, new_state) = match get_old_and_new_asset_data_compressed_pda(
        &asset_data_address,
        asset_data,
        asset_data_input,
    ) {
        Ok(p) => p,
        Err(e) => {
            return Err(e);
        },
    };

    let blob_seed = match get_asset_resource_seed("blob".as_bytes(), asset_address) {
        Ok(s) => s,
        Err(e) => {
            return Err(e);
        },
    };
    let blob_address = derive_address(&tree_key, &blob_seed);
    let blob_compressed_pda = match get_blob_compressed_pda(&blob_address, blob, asset_data_input) {
        Ok(o) => o,
        Err(e) => {
            return Err(e);
        },
    };

    let mut new_addresses: Vec<NewAddressParamsPacked> = Vec::new();
    new_addresses.push(make_new_address(blob_seed, blob_address_params));
    let mut inputs: Vec<PackedCompressedAccountWithMerkleContext> = Vec::new();
    inputs.push(old_state);
    let mut outputs: Vec<OutputCompressedAccountWithPackedContext> = Vec::new();
    outputs.push(blob_compressed_pda);
    outputs.push(new_state);
    Ok(make_bundle(proof, new_addresses, inputs, outputs))
}

} // verus!
