use vstd::prelude::*;

verus! {

/// Every way an operation can be refused. All local checks fail closed,
/// before any ledger interaction.
#[derive(Clone, Copy, Debug, PartialEq, Eq, Structural)]
pub enum ZkNftError {
    /// A group at capacity was asked to admit one more asset.
    GroupMaxSizeExceeded,
    /// A blob or attribute set was attached to an asset whose metadata is
    /// not mutable.
    AssetNotMutable,
    /// A transfer was attempted while the base record is not `Unlocked`.
    AssetIsLocked,
    /// The caller lacks the required ownership, delegation or
    /// group-authority relationship.
    InvalidAuthority,
    /// The caller-supplied tree-selector index is out of range of the
    /// available commitment trees.
    AddressDerivationFailed,
    /// The commitment hasher refused the input list (its arity is bounded).
    HashingFailed,
    /// The external ledger service refused a bundle: stale commitment,
    /// malformed proof, or capacity limits. Never raised by a local check.
    LedgerRejected,
}

} // verus!
