//! The transfer transition: after the lock and authorization gates pass,
//! the current base-asset commitment is consumed and a commitment to the
//! same record with the new owner — and nothing else changed — is produced
//! at the same address, in one atomic bundle.
use vstd::prelude::*;
use vstd::string::StringSliceAdditionalSpecFns;
use crate::bundle::{
    bundle_framing, is_input_record, is_output_record, make_bundle, make_input_record,
    make_output_record, CompressedProof, InstructionDataInvokeCpi,
    OutputCompressedAccountWithPackedContext, PackedCompressedAccountWithMerkleContext,
};
use crate::commit::base_data_commitment;
use crate::crypto::key_eq;
use crate::errors::ZkNftError;
use crate::serial::{account_discriminator, base_data_bytes, discriminator_of, serialize_base_data};
use crate::state::{
    BaseData, DelegateAction, OwnerUpdatedEvent, PackedInputCompressedPda, State,
};

verus! {

/// The outcome of a transfer: the ownership notification and the atomic
/// replace bundle to hand to the ledger.
#[derive(Debug)]
pub struct TransferResult {
    pub event: OwnerUpdatedEvent,
    pub bundle: InstructionDataInvokeCpi,
}

/// The record a transfer produces: the same record with only the owner
/// replaced.
pub open spec fn transferred(b: BaseData, new_owner: [u8; 32]) -> BaseData {
    BaseData {
        owner: new_owner,
        delegate: b.delegate,
        delegate_role: b.delegate_role,
        state: b.state,
    }
}

/// Which local check refuses a transfer, if any: the lock gate first, then
/// the ownership/delegation gate.
pub open spec fn transfer_error(base_data: BaseData, authority: Seq<u8>) -> Option<ZkNftError> {
    if !(base_data.state is Unlocked) {
        Some(ZkNftError::AssetIsLocked)
    } else if !base_data.transfer_authorized(authority) {
        Some(ZkNftError::InvalidAuthority)
    } else {
        None
    }
}

/// The consumed and produced base-asset records of a transfer: the old
/// record located by the caller's selectors, the new one going into the
/// same tree at the same permanent address.
pub fn get_old_and_new_base_data_compressed_pda(
    base_data_address: &[u8; 32],
    base_data_input: &PackedInputCompressedPda,
    old_base_data: &BaseData,
    new_base_data: BaseData,
) -> (r: Result<
    (PackedCompressedAccountWithMerkleContext, OutputCompressedAccountWithPackedContext),
    ZkNftError,
>)
    ensures
        r is Ok,
        is_input_record(
            r->Ok_0.0,
            base_data_address@,
            account_discriminator("BaseData".spec_bytes()),
            base_data_bytes(*old_base_data),
            base_data_commitment(*old_base_data),
            base_data_input.merkle_context,
            base_data_input.root_index,
        ),
        is_output_record(
            r->Ok_0.1,
            base_data_address@,
            account_discriminator("BaseData".spec_bytes()),
            base_data_bytes(new_base_data),
            base_data_commitment(new_base_data),
            base_data_input.merkle_context.merkle_tree_pubkey_index,
        ),
{
    let disc = discriminator_of("BaseData");
    let old_bytes = serialize_base_data(old_base_data);
    let old_hash = match old_base_data.hash() {
        Ok(h) => h,
        Err(e) => {
            return Err(e);
        },
    };
    let old_record = make_input_record(
        *base_data_address,
        disc,
        old_bytes,
        old_hash,
        base_data_input.merkle_context,
        base_data_input.root_index,
    );
    let new_bytes = serialize_base_data(&new_base_data);
    let new_hash = match new_base_data.hash() {
        Ok(h) => h,
        Err(e) => {
            return Err(e);
        },
    };
    let new_record = make_output_record(
        *base_data_address,
        disc,
        new_bytes,
        new_hash,
        base_data_input.merkle_context.merkle_tree_pubkey_index,
    );
    Ok((old_record, new_record))
}

/// Transfers the asset at `asset_id` to `recipient`. Fails closed on the
/// lock gate and the ownership/delegation gate; on success the bundle
/// consumes the commitment of the caller-supplied current record and
/// produces the commitment of the same record owned by `recipient`.
pub fn transfer(
    authority: &[u8; 32],
    recipient: &[u8; 32],
    proof: CompressedProof,
    asset_id: &[u8; 32],
    base_data: &BaseData,
    base_data_input: &PackedInputCompressedPda,
) -> (r: Result<TransferResult, ZkNftError>)
    ensures
        r is Err <==> transfer_error(*base_data, authority@) is Some,
        r is Err ==> r->Err_0 == transfer_error(*base_data, authority@)->0,
        r is Ok ==> r->Ok_0.event.asset_id@ == asset_id@ && r->Ok_0.event.owner@ == recipient@,
        r is Ok ==> bundle_framing(r->Ok_0.bundle, proof),
        r is Ok ==> r->Ok_0.bundle.new_address_params@.len() == 0,
        r is Ok ==> r->Ok_0.bundle.input_compressed_accounts_with_merkle_context@.len() == 1
            && is_input_record(
            r->Ok_0.bundle.input_compressed_accounts_with_merkle_context@[0],
            asset_id@,
            account_discriminator("BaseData".spec_bytes()),
            base_data_bytes(*base_data),
            base_data_commitment(*base_data),
            base_data_input.merkle_context,
            base_data_input.root_index,
        ),
        r is Ok ==> r->Ok_0.bundle.output_compressed_accounts@.len() == 1 && is_output_record(
            r->Ok_0.bundle.output_compressed_accounts@[0],
            asset_id@,
            account_discriminator("BaseData".spec_bytes()),
            base_data_bytes(transferred(*base_data, *recipient)),
            base_data_commitment(transferred(*base_data, *recipient)),
            base_data_input.merkle_context.merkle_tree_pubkey_index,
        ),
{
    if !matches!(base_data.state, State::Unlocked) {
        return Err(ZkNftError::AssetIsLocked);
    }
    if !key_eq(authority, &base_data.owner) {
        let delegated = match &base_data.delegate {
            Some(d) => key_eq(authority, d) && base_data.delegate_role.permits(
                DelegateAction::Transfer,
            ),
            None => false,
        };
        if !delegated {
            return Err(ZkNftError::InvalidAuthority);
        }
    }
    let event = OwnerUpdatedEvent { asset_id: *asset_id, owner: *recipient };
    let new_base_data = BaseData {
        owner: *recipient,
        delegate: base_data.delegate,
        delegate_role: base_data.delegate_role,
        state: base_data.state,
    };
    let (old_record, new_record) = match get_old_and_new_base_data_compressed_pda(
        asset_id,
        base_data_input,
        base_data,
        new_base_data,
    ) {
        Ok(p) => p,
        Err(e) => {
            return Err(e);
        },
    };
    let mut inputs: Vec<PackedCompressedAccountWithMerkleContext> = Vec::new();
    inputs.push(old_record);
    let mut outputs: Vec<OutputCompressedAccountWithPackedContext> = Vec::new();
    outputs.push(new_record);
    let bundle = make_bundle(proof, Vec::new(), inputs, outputs);
    Ok(TransferResult { event, bundle })
}

} // verus!
