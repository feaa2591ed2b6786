//! The cryptographic primitives that the address-derivation and commitment
//! rules are built on. Each digest is named by an uninterpreted spec
//! function: the library's contracts pin every result down to these names,
//! and the external hashers are relied on only through the items below.
use vstd::prelude::*;

verus! {

/// The SHA-256 digest (32 bytes) of a byte string.
pub uninterp spec fn sha256_of(data: Seq<u8>) -> Seq<u8>;

/// The BN254-field-sized digest (32 bytes, leading byte zero) of a byte
/// string.
pub uninterp spec fn field_hash_of(data: Seq<u8>) -> Seq<u8>;

/// The Poseidon digest (32 bytes) of an ordered list of field-sized inputs.
pub uninterp spec fn poseidon_of(inputs: Seq<Seq<u8>>) -> Seq<u8>;

/// Relies on `anchor_lang::solana_program::hash::hashv`: the SHA-256 digest
/// of the concatenation of the given byte strings.
#[verifier::external_body]
pub(crate) fn sha256_pair(a: &[u8], b: &[u8]) -> (r: [u8; 32])
    ensures
        r@ == sha256_of(a@ + b@),
{
    anchor_lang::solana_program::hash::hashv(&[a, b]).to_bytes()
}

/// Relies on `light_utils::hash_to_bn254_field_size_be`: the Keccak digest of
/// the input extended by the first bump byte, with the leading byte zeroed so
/// that the value fits the BN254 scalar field; the first bump always
/// succeeds, so the call never fails.
#[verifier::external_body]
pub(crate) fn hash_to_field(bytes: &[u8]) -> (r: [u8; 32])
    ensures
        r@ == field_hash_of(bytes@),
        r@[0] == 0,
{
    light_utils::hash_to_bn254_field_size_be(bytes).unwrap().0
}

/// Relies on `light_hasher::Poseidon::hashv`: inputs are zero-padded to 32
/// bytes; the digest exists exactly when there are 1 to 12 inputs, none
/// longer than 32 bytes and each below the field modulus (a zero leading
/// byte is sufficient for 32-byte inputs).
#[verifier::external_body]
pub(crate) fn poseidon_hashv(inputs: &Vec<Vec<u8>>) -> (r: Option<[u8; 32]>)
    ensures
        r is Some ==> r->0@ == poseidon_of(inputs.deep_view()),
        (1 <= inputs@.len() <= 12 && forall|i: int|
            0 <= i < inputs@.len() ==> (inputs@[i]@.len() < 32 || (inputs@[i]@.len() == 32
                && inputs@[i]@[0] == 0))) ==> r is Some,
        (inputs@.len() == 0 || inputs@.len() > 12) ==> r is None,
{
    let refs: Vec<&[u8]> = inputs.iter().map(|v| v.as_slice()).collect();
    match <light_hasher::Poseidon as light_hasher::Hasher>::hashv(refs.as_slice()) {
        Ok(h) => Some(h),
        Err(_) => None,
    }
}

/// Relies on `light_system_program::sdk::address::derive_address`: the
/// field-sized digest of the merkle tree key concatenated with the seed. Its
/// only error path is the digest failing, which never happens.
#[verifier::external_body]
pub(crate) fn derive_address(merkle_tree_key: &[u8; 32], seed: &[u8; 32]) -> (r: [u8; 32])
    ensures
        r@ == field_hash_of(merkle_tree_key@ + seed@),
        r@[0] == 0,
{
    light_system_program::sdk::address::derive_address(
        &anchor_lang::prelude::Pubkey::new_from_array(*merkle_tree_key),
        seed,
    ).unwrap()
}

/// Byte-for-byte equality of two 32-byte values.
pub fn key_eq(a: &[u8; 32], b: &[u8; 32]) -> (r: bool)
    ensures
        r <==> a@ == b@,
{
    let mut i: usize = 0;
    while i < 32
        invariant
            0 <= i <= 32,
            forall|j: int| 0 <= j < i ==> a@[j] == b@[j],
        decreases 32 - i,
    {
        if a[i] != b[i] {
            return false;
        }
        i = i + 1;
    }
    proof {
        assert(a@ =~= b@);
    }
    true
}

} // verus!
