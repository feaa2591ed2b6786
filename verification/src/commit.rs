//! The commitment rules: one canonical, ordered input list per record type,
//! folded by the Poseidon digest into the 32-byte commitment that stands for
//! the record inside the ledger. Present fields are always included;
//! absent optional fields contribute nothing at all — the proof circuit
//! binds to exactly this layout. Byte strings longer than a field element
//! are first reduced by the field-sized digest.
use vstd::prelude::*;
use vstd::utf8::encode_utf8;
use crate::crypto::{field_hash_of, hash_to_field, poseidon_hashv, poseidon_of};
use crate::errors::ZkNftError;
use crate::serial::{bool_byte, role_byte, role_byte_of, state_byte, state_byte_of};
use crate::state::{AssetData, Attribute, Attributes, BaseData, Blob};

verus! {

/// A hash input as the Poseidon digest accepts it: at most a field element
/// wide, with a zero leading byte when exactly 32 bytes.
pub open spec fn field_sized(b: Seq<u8>) -> bool {
    b.len() < 32 || (b.len() == 32 && b[0] == 0)
}

/// The ordered hash inputs of a base-asset record: owner digest, state
/// byte, the delegate digest only when a delegate is set, role byte.
pub open spec fn base_data_hash_inputs(d: BaseData) -> Seq<Seq<u8>> {
    seq![field_hash_of(d.owner@), seq![state_byte(d.state)]] + (match d.delegate {
        Option::Some(k) => seq![field_hash_of(k@)],
        Option::None => Seq::empty(),
    }) + seq![seq![role_byte(d.delegate_role)]]
}

/// The commitment of a base-asset record.
pub open spec fn base_data_commitment(d: BaseData) -> Seq<u8> {
    poseidon_of(base_data_hash_inputs(d))
}

/// The ordered hash inputs of a metadata record: mutability byte, group and
/// authority digests only when set, the two attachment flags.
pub open spec fn asset_data_hash_inputs(d: AssetData) -> Seq<Seq<u8>> {
    seq![seq![bool_byte(d.mutable)]] + (match d.group {
        Option::Some(k) => seq![field_hash_of(k@)],
        Option::None => Seq::empty(),
    }) + (match d.authority {
        Option::Some(k) => seq![field_hash_of(k@)],
        Option::None => Seq::empty(),
    }) + seq![seq![bool_byte(d.has_attributes)], seq![bool_byte(d.has_blob)]]
}

/// The commitment of a metadata record.
pub open spec fn asset_data_commitment(d: AssetData) -> Seq<u8> {
    poseidon_of(asset_data_hash_inputs(d))
}

/// The ordered hash inputs of a blob record: the content-type digest, then
/// the upload-reference digest.
pub open spec fn blob_hash_inputs(b: Blob) -> Seq<Seq<u8>> {
    seq![field_hash_of(encode_utf8(b.content_type@)), field_hash_of(b.tx_sig@)]
}

/// The commitment of a blob record.
pub open spec fn blob_commitment(b: Blob) -> Seq<u8> {
    poseidon_of(blob_hash_inputs(b))
}

/// The hash inputs contributed by an attribute list: a trait-type digest
/// and a value digest per attribute, in order.
pub open spec fn attribute_list_hash_inputs(s: Seq<Attribute>) -> Seq<Seq<u8>>
    decreases s.len(),
{
    if s.len() == 0 {
        Seq::empty()
    } else {
        attribute_list_hash_inputs(s.drop_last()) + seq![
            field_hash_of(encode_utf8(s.last().trait_type@)),
            field_hash_of(encode_utf8(s.last().value@)),
        ]
    }
}

/// The ordered hash inputs of an attribute-set record: the per-attribute
/// digests, then the group digest only when a group is set.
pub open spec fn attributes_hash_inputs(a: Attributes) -> Seq<Seq<u8>> {
    attribute_list_hash_inputs(a.attributes@) + (match a.group {
        Option::Some(k) => seq![field_hash_of(k@)],
        Option::None => Seq::empty(),
    })
}

/// The commitment of an attribute-set record.
pub open spec fn attributes_commitment(a: Attributes) -> Seq<u8> {
    poseidon_of(attributes_hash_inputs(a))
}

/// Whether the Poseidon digest accepts an input list of this length.
pub open spec fn arity_ok(n: int) -> bool {
    1 <= n <= 12
}

impl BaseData {
    /// The commitment standing for this record in the ledger.
    pub fn hash(&self) -> (r: Result<[u8; 32], ZkNftError>)
        ensures
            r is Ok,
            r->Ok_0@ == base_data_commitment(*self),
    {
        let mut inputs: Vec<Vec<u8>> = Vec::new();
        let owner_hash = hash_to_field(self.owner.as_slice());
        inputs.push(vstd::slice::slice_to_vec(owner_hash.as_slice()));
        let mut state_b: Vec<u8> = Vec::new();
        state_b.push(state_byte_of(&self.state));
        inputs.push(state_b);
        match &self.delegate {
            Option::Some(k) => {
                let dh = hash_to_field(k.as_slice());
                inputs.push(vstd::slice::slice_to_vec(dh.as_slice()));
            },
            Option::None => {},
        }
        let mut role_b: Vec<u8> = Vec::new();
        role_b.push(role_byte_of(&self.delegate_role));
        inputs.push(role_b);
        proof {
            assert(inputs.deep_view() =~~= base_data_hash_inputs(*self));
        }
        match poseidon_hashv(&inputs) {
            Option::Some(h) => Ok(h),
            Option::None => Err(ZkNftError::HashingFailed),
        }
    }
}

impl AssetData {
    /// The commitment standing for this record in the ledger.
    pub fn hash(&self) -> (r: Result<[u8; 32], ZkNftError>)
        ensures
            r is Ok,
            r->Ok_0@ == asset_data_commitment(*self),
    {
        let mut inputs: Vec<Vec<u8>> = Vec::new();
        let mut mutable_b: Vec<u8> = Vec::new();
        mutable_b.push(if self.mutable {
            1u8
        } else {
            0u8
        });
        inputs.push(mutable_b);
        match &self.group {
            Option::Some(k) => {
                let gh = hash_to_field(k.as_slice());
                inputs.push(vstd::slice::slice_to_vec(gh.as_slice()));
            },
            Option::None => {},
        }
        match &self.authority {
            Option::Some(k) => {
                let ah = hash_to_field(k.as_slice());
                inputs.push(vstd::slice::slice_to_vec(ah.as_slice()));
            },
            Option::None => {},
        }
        let mut attr_b: Vec<u8> = Vec::new();
        attr_b.push(if self.has_attributes {
            1u8
        } else {
            0u8
        });
        inputs.push(attr_b);
        let mut blob_b: Vec<u8> = Vec::new();
        blob_b.push(if self.has_blob {
            1u8
        } else {
            0u8
        });
        inputs.push(blob_b);
        proof {
            assert(inputs.deep_view() =~~= asset_data_hash_inputs(*self));
        }
        match poseidon_hashv(&inputs) {
            Option::Some(h) => Ok(h),
            Option::None => Err(ZkNftError::HashingFailed),
        }
    }
}

impl Blob {
    /// The commitment standing for this record in the ledger.
    pub fn hash(&self) -> (r: Result<[u8; 32], ZkNftError>)
        ensures
            r is Ok,
            r->Ok_0@ == blob_commitment(*self),
    {
        let mut inputs: Vec<Vec<u8>> = Vec::new();
        let ct_hash = hash_to_field(self.content_type.as_str().as_bytes());
        inputs.push(vstd::slice::slice_to_vec(ct_hash.as_slice()));
        let sig_hash = hash_to_field(self.tx_sig.as_slice());
        inputs.push(vstd::slice::slice_to_vec(sig_hash.as_slice()));
        proof {
            assert(inputs.deep_view() =~~= blob_hash_inputs(*self));
        }
        match poseidon_hashv(&inputs) {
            Option::Some(h) => Ok(h),
            Option::None => Err(ZkNftError::HashingFailed),
        }
    }
}

impl Attributes {
    /// How many hash inputs this record contributes.
    pub open spec fn hash_input_count(self) -> int {
        2 * self.attributes@.len() + (if self.group is Some {
            1int
        } else {
            0int
        })
    }

    /// The commitment standing for this record in the ledger. The digest's
    /// arity is bounded, so the commitment exists exactly when the input
    /// list is neither empty nor wider than the digest accepts.
    pub fn hash(&self) -> (r: Result<[u8; 32], ZkNftError>)
        ensures
            r is Ok <==> arity_ok(self.hash_input_count()),
            r is Ok ==> r->Ok_0@ == attributes_commitment(*self),
            r is Err ==> r->Err_0 == ZkNftError::HashingFailed,
    {
        let mut inputs: Vec<Vec<u8>> = Vec::new();
        let mut i: usize = 0;
        while i < self.attributes.len()
            invariant
                0 <= i <= self.attributes@.len(),
                inputs.deep_view() == attribute_list_hash_inputs(self.attributes@.take(i as int)),
                inputs@.len() == 2 * i,
                forall|j: int| 0 <= j < inputs@.len() ==> field_sized(#[trigger] inputs@[j]@),
            decreases self.attributes@.len() - i,
        {
            let at = &self.attributes[i];
            let th = hash_to_field(at.trait_type.as_str().as_bytes());
            inputs.push(vstd::slice::slice_to_vec(th.as_slice()));
            let vh = hash_to_field(at.value.as_str().as_bytes());
            inputs.push(vstd::slice::slice_to_vec(vh.as_slice()));
            proof {
                assert(self.attributes@.take(i + 1 as int).drop_last() =~= self.attributes@.take(
                    i as int,
                ));
                assert(self.attributes@.take(i + 1 as int).last() == self.attributes@[i as int]);
                assert(inputs.deep_view() =~~= attribute_list_hash_inputs(
                    self.attributes@.take(i + 1 as int),
                ));
            }
            i = i + 1;
        }
        match &self.group {
            Option::Some(k) => {
                let gh = hash_to_field(k.as_slice());
                inputs.push(vstd::slice::slice_to_vec(gh.as_slice()));
            },
            Option::None => {},
        }
        proof {
            assert(self.attributes@.take(self.attributes@.len() as int) =~= self.attributes@);
            assert(inputs.deep_view() =~~= attributes_hash_inputs(*self));
        }
        match poseidon_hashv(&inputs) {
            Option::Some(h) => Ok(h),
            Option::None => Err(ZkNftError::HashingFailed),
        }
    }
}

} // verus!
