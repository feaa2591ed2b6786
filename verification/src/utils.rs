//! Derivation of the seeds that bind an asset's auxiliary records to its
//! identity: a domain-separated digest of a namespace tag and the
//! base-asset address. Any party can recompute them from the asset's
//! identity alone, without consulting the ledger.
use vstd::prelude::*;
use crate::crypto::{field_hash_of, sha256_of, sha256_pair};
use crate::errors::ZkNftError;

verus! {

/// The permanent address the ledger assigns to a record registered in the
/// tree at `tree_key` under `seed`.
pub open spec fn derived_address(tree_key: Seq<u8>, seed: Seq<u8>) -> Seq<u8> {
    field_hash_of(tree_key + seed)
}

/// The fixed address of the auxiliary record filed under `tag` for the
/// asset at `asset_id`, reproducible from the asset's identity alone.
pub open spec fn asset_resource_address(tree_key: Seq<u8>, tag: Seq<u8>, asset_id: Seq<u8>) -> Seq<
    u8,
> {
    derived_address(tree_key, resource_seed(tag, asset_id))
}

/// Looks the caller-selected commitment tree up among the available ones;
/// an out-of-range selector is the one way address derivation fails.
pub fn resolve_tree_key(keys: &Vec<[u8; 32]>, index: u8) -> (r: Result<[u8; 32], ZkNftError>)
    ensures
        r is Ok <==> (index as int) < keys@.len(),
        r is Ok ==> r->Ok_0 == keys@[index as int],
        r is Err ==> r->Err_0 == ZkNftError::AddressDerivationFailed,
{
    if (index as usize) < keys.len() {
        Ok(keys[index as usize])
    } else {
        Err(ZkNftError::AddressDerivationFailed)
    }
}

/// The seed of the auxiliary record filed under `resource` for the asset at
/// `asset_address`.
pub open spec fn resource_seed(resource: Seq<u8>, asset_address: Seq<u8>) -> Seq<u8> {
    sha256_of(resource + asset_address)
}

/// Computes the seed of the auxiliary record filed under the namespace tag
/// `resource` for the asset at `asset_address`.
pub fn get_asset_resource_seed(resource: &[u8], asset_address: &[u8; 32]) -> (r: Result<
    [u8; 32],
    ZkNftError,
>)
    ensures
        r is Ok,
        r->Ok_0@ == resource_seed(resource@, asset_address@),
{
    Ok(sha256_pair(resource, asset_address.as_slice()))
}

} // verus!
