//! Content-addressed collectible assets kept as commitment records in an
//! append-only ledger: resource model, deterministic address derivation,
//! per-resource commitment hashing, authorization checks, and the assembly of
//! the atomic old-state/new-state replace bundles that the external ledger
//! service consumes.
pub mod crypto;
pub mod errors;
pub mod laws;
pub mod bundle;
pub mod commit;
pub mod create_asset;
pub mod create_blob;
pub mod create_group;
pub mod serial;
pub mod state;
pub mod transfer;
pub mod upload;
pub mod utils;
