//! The library-wide laws: what holds of every group, every address, every
//! commitment and every transition gate, stated over the same spec
//! functions the operations' contracts use.
use vstd::prelude::*;
use crate::commit::{
    asset_data_commitment, asset_data_hash_inputs, attributes_commitment, attributes_hash_inputs,
    base_data_commitment, base_data_hash_inputs, blob_commitment, blob_hash_inputs,
};
use crate::create_asset::{create_asset_error, AttributesParams};
use crate::create_blob::create_blob_error;
use crate::errors::ZkNftError;
use crate::state::{
    AssetData, Attributes, BaseData, DelegateAction, DelegateRole, Group, GroupAccount,
};
use crate::transfer::transfer_error;
use crate::utils::asset_resource_address;

verus! {

/// Law: a group never exceeds its bound. A successful creation requires
/// the group to admit one more asset, and the record after the applied
/// increment still satisfies the invariant; at capacity — with the group
/// authority matching — the creation fails with exactly the capacity
/// error, which leaves the group unchanged.
pub proof fn lemma_group_capacity(
    group: GroupAccount,
    group_authority: Option<[u8; 32]>,
    authority: Option<[u8; 32]>,
    tree_count: int,
    tree_index: int,
    attributes_params: Option<AttributesParams>,
)
    requires
        group.data.wf(),
        group.data.size < u64::MAX,
    ensures
        create_asset_error(
            Some(group),
            group_authority,
            authority,
            tree_count,
            tree_index,
            attributes_params,
        ) is None ==> group.data.admits() && (Group {
            size: (group.data.size + 1) as u64,
            max_size: group.data.max_size,
            authority: group.data.authority,
        }).wf(),
        (group_authority is Some && group_authority->0@ == group.data.authority@
            && group.data.max_size > 0 && group.data.size >= group.data.max_size)
            ==> create_asset_error(
            Some(group),
            group_authority,
            authority,
            tree_count,
            tree_index,
            attributes_params,
        ) == Some(ZkNftError::GroupMaxSizeExceeded),
{
}

/// Law: auxiliary addresses are pure functions of the tree, the namespace
/// tag and the base address alone — deriving twice from equal inputs gives
/// identical addresses, with no other dependency.
pub proof fn lemma_resource_address_deterministic(
    tree1: Seq<u8>,
    tag1: Seq<u8>,
    asset1: Seq<u8>,
    tree2: Seq<u8>,
    tag2: Seq<u8>,
    asset2: Seq<u8>,
)
    requires
        tree1 == tree2,
        tag1 == tag2,
        asset1 == asset2,
    ensures
        asset_resource_address(tree1, tag1, asset1) == asset_resource_address(tree2, tag2, asset2),
{
}

/// Law: commitments are deterministic. Records with equal field values —
/// including the same presence pattern of the optional fields — have equal
/// hash input lists and therefore equal commitments.
pub proof fn lemma_commit_deterministic_base(a: BaseData, b: BaseData)
    requires
        a == b,
    ensures
        base_data_hash_inputs(a) == base_data_hash_inputs(b),
        base_data_commitment(a) == base_data_commitment(b),
{
}

/// Law: commitments are deterministic, for metadata records.
pub proof fn lemma_commit_deterministic_asset_data(a: AssetData, b: AssetData)
    requires
        a == b,
    ensures
        asset_data_hash_inputs(a) == asset_data_hash_inputs(b),
        asset_data_commitment(a) == asset_data_commitment(b),
{
}

/// Law: commitments are deterministic, for blob records.
pub proof fn lemma_commit_deterministic_blob(a: crate::state::Blob, b: crate::state::Blob)
    requires
        a.content_type@ == b.content_type@,
        a.tx_sig@ == b.tx_sig@,
    ensures
        blob_hash_inputs(a) == blob_hash_inputs(b),
        blob_commitment(a) == blob_commitment(b),
{
}

/// Law: commitments are deterministic, for attribute-set records.
pub proof fn lemma_commit_deterministic_attributes(a: Attributes, b: Attributes)
    requires
        a == b,
    ensures
        attributes_hash_inputs(a) == attributes_hash_inputs(b),
        attributes_commitment(a) == attributes_commitment(b),
{
}

/// Law: the transfer gates. The owner is always authorized; with no
/// delegate set, nobody else is; on an unlocked record the transfer check
/// refuses exactly the unauthorized callers, with the authority error.
pub proof fn lemma_transfer_authorization(b: BaseData, caller: Seq<u8>)
    ensures
        caller == b.owner@ ==> b.transfer_authorized(caller),
        b.delegate is None && caller != b.owner@ ==> !b.transfer_authorized(caller),
        b.state is Unlocked ==> (transfer_error(b, caller) is None <==> b.transfer_authorized(
            caller,
        )),
        b.state is Unlocked && !b.transfer_authorized(caller) ==> transfer_error(b, caller)
            == Some(ZkNftError::InvalidAuthority),
{
}

/// Law: the lock gate. A record that is not unlocked refuses a transfer
/// with the lock error, whoever the caller is — the owner included.
pub proof fn lemma_locked_asset_refuses_transfer(b: BaseData, caller: Seq<u8>)
    requires
        !(b.state is Unlocked),
    ensures
        transfer_error(b, caller) == Some(ZkNftError::AssetIsLocked),
{
}

/// Law: the mutation gate. An immutable metadata record refuses a blob
/// attachment with the mutability error, whoever the caller is and
/// whatever the tree selectors are.
pub proof fn lemma_immutable_asset_refuses_blob(
    d: AssetData,
    caller: Seq<u8>,
    tree_count: int,
    tree_index: int,
)
    requires
        !d.mutable,
    ensures
        create_blob_error(d, caller, tree_count, tree_index) == Some(ZkNftError::AssetNotMutable),
{
}

/// Law: the delegate role table. A delegate role grants the transfer
/// action exactly when it is one of the four transfer-bearing roles.
pub proof fn lemma_transfer_roles(r: DelegateRole)
    ensures
        r.spec_permits(DelegateAction::Transfer) <==> (r == DelegateRole::All || r
            == DelegateRole::Transfer || r == DelegateRole::TransferAndLock || r
            == DelegateRole::TransferAndBurn),
{
}

} // verus!
