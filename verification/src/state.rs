//! The resource model: typed definitions of the group, base-asset, metadata,
//! blob and attribute records, together with their structural invariants and
//! the authorization predicates that gate each state transition.
use vstd::prelude::*;

verus! {

/// The lock state of a base-asset record. Only `Unlocked` records may be
/// transferred; no operation in scope drives a record into or out of the
/// locked states, but the values are part of the committed layout.
#[derive(Clone, Copy, Debug, PartialEq, Eq, Structural)]
pub enum State {
    Unlocked,
    LockedByAuthority,
    LockedByDelegate,
}

/// The subset of actions a delegate may perform on a base asset.
#[derive(Clone, Copy, Debug, PartialEq, Eq, Structural)]
pub enum DelegateRole {
    All,
    Transfer,
    Lock,
    Burn,
    TransferAndLock,
    TransferAndBurn,
    LockAndBurn,
}

/// An action a delegate can be entitled to.
#[derive(Clone, Copy, Debug, PartialEq, Eq, Structural)]
pub enum DelegateAction {
    Transfer,
    Lock,
    Burn,
}

impl DelegateRole {
    /// Which actions each role grants, in one place.
    pub open spec fn spec_permits(self, action: DelegateAction) -> bool {
        match self {
            DelegateRole::All => true,
            DelegateRole::Transfer => action is Transfer,
            DelegateRole::Lock => action is Lock,
            DelegateRole::Burn => action is Burn,
            DelegateRole::TransferAndLock => action is Transfer || action is Lock,
            DelegateRole::TransferAndBurn => action is Transfer || action is Burn,
            DelegateRole::LockAndBurn => action is Lock || action is Burn,
        }
    }

    /// Whether this role entitles a delegate to perform `action`.
    pub fn permits(&self, action: DelegateAction) -> (r: bool)
        ensures
            r == self.spec_permits(action),
    {
        match (self, action) {
            (DelegateRole::All, _) => true,
            (DelegateRole::Transfer, DelegateAction::Transfer) => true,
            (DelegateRole::Lock, DelegateAction::Lock) => true,
            (DelegateRole::Burn, DelegateAction::Burn) => true,
            (DelegateRole::TransferAndLock, DelegateAction::Transfer) => true,
            (DelegateRole::TransferAndLock, DelegateAction::Lock) => true,
            (DelegateRole::TransferAndBurn, DelegateAction::Transfer) => true,
            (DelegateRole::TransferAndBurn, DelegateAction::Burn) => true,
            (DelegateRole::LockAndBurn, DelegateAction::Lock) => true,
            (DelegateRole::LockAndBurn, DelegateAction::Burn) => true,
            _ => false,
        }
    }
}

/// A group of assets, kept in ordinary mutable storage. `size` only ever
/// grows, one admission at a time; `max_size == 0` means unbounded.
#[derive(Clone, Copy, Debug)]
pub struct Group {
    pub size: u64,
    pub max_size: u64,
    pub authority: [u8; 32],
}

impl Group {
    /// The group invariant: a bounded group never exceeds its bound.
    pub open spec fn wf(self) -> bool {
        self.max_size == 0 || self.size <= self.max_size
    }

    /// Whether the group may admit one more asset.
    pub open spec fn admits(self) -> bool {
        self.max_size == 0 || self.size < self.max_size
    }
}

/// A group account as the caller supplies it: its address in storage
/// together with its record.
#[derive(Clone, Copy, Debug)]
pub struct GroupAccount {
    pub key: [u8; 32],
    pub data: Group,
}

/// The mutable ownership/lock/delegation record of one asset. Its address is
/// permanent; every ownership-affecting operation replaces its commitment.
#[derive(Clone, Copy, Debug)]
pub struct BaseData {
    pub owner: [u8; 32],
    pub delegate: Option<[u8; 32]>,
    pub delegate_role: DelegateRole,
    pub state: State,
}

impl BaseData {
    /// Whether `caller` may transfer this asset: the owner always may; a
    /// delegate may when its role grants the transfer action.
    pub open spec fn transfer_authorized(self, caller: Seq<u8>) -> bool {
        caller == self.owner@ || (self.delegate is Some && self.delegate->0@ == caller
            && self.delegate_role.spec_permits(DelegateAction::Transfer))
    }
}

/// Descriptive and administrative facts about an asset, decoupled from
/// ownership. Replaced (same address, new commitment) when a blob or an
/// attribute set is first attached.
#[derive(Clone, Copy, Debug)]
pub struct AssetData {
    pub mutable: bool,
    pub group: Option<[u8; 32]>,
    pub authority: Option<[u8; 32]>,
    pub has_attributes: bool,
    pub has_blob: bool,
}

/// An immutable-once-written payload descriptor.
#[derive(Clone, Debug)]
pub struct Blob {
    pub content_type: String,
    pub tx_sig: [u8; 64],
}

/// One trait/value pair of an attribute set.
#[derive(Clone, Debug)]
pub struct Attribute {
    pub trait_type: String,
    pub value: String,
}

/// The attribute set of an asset, created at most once.
#[derive(Clone, Debug)]
pub struct Attributes {
    pub group: Option<[u8; 32]>,
    pub attributes: Vec<Attribute>,
}

/// The caller-chosen selectors of the address queue and merkle tree that a
/// new address is registered in.
#[derive(Clone, Copy, Debug)]
pub struct NewAddressParams {
    pub address_queue_account_index: u8,
    pub address_merkle_tree_account_index: u8,
    pub address_merkle_tree_root_index: u16,
}

/// Index of a compressed-account leaf in a queue; a placeholder in the
/// ledger's current layout.
#[derive(Clone, Copy, Debug)]
pub struct QueueIndex {
    pub queue_id: u8,
    pub index: u16,
}

/// Selectors locating an existing commitment inside the ledger's trees.
#[derive(Clone, Copy, Debug)]
pub struct PackedMerkleContext {
    pub merkle_tree_pubkey_index: u8,
    pub nullifier_queue_pubkey_index: u8,
    pub leaf_index: u32,
    pub queue_index: Option<QueueIndex>,
}

/// A caller-supplied reference to the current commitment of a record, to be
/// consumed by an operation.
#[derive(Clone, Copy, Debug)]
pub struct PackedInputCompressedPda {
    pub merkle_context: PackedMerkleContext,
    pub root_index: u16,
}

/// The notification emitted on every ownership change.
#[derive(Clone, Copy, Debug)]
pub struct OwnerUpdatedEvent {
    pub asset_id: [u8; 32],
    pub owner: [u8; 32],
}

/// The header of an upload-buffer session, tagging its authority.
#[derive(Clone, Copy, Debug)]
pub struct UploadedBlob {
    pub authority: [u8; 32],
}

} // verus!
