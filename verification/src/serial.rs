//! The canonical byte layout of each record, exactly as the ledger stores
//! it: fixed field order, one tag byte per optional field (0 absent,
//! 1 present), little-endian u32 length prefixes on strings and lists, and
//! an 8-byte record tag derived from the record's name.
use vstd::prelude::*;
use vstd::bytes::{spec_u32_to_le_bytes, u32_to_le_bytes};
use vstd::slice::slice_to_vec;
use vstd::string::StringSliceAdditionalSpecFns;
use vstd::utf8::encode_utf8;
use crate::crypto::{sha256_of, sha256_pair};
use crate::state::{AssetData, Attribute, Attributes, BaseData, Blob, DelegateRole, State};

verus! {

/// The byte a boolean field contributes.
pub open spec fn bool_byte(b: bool) -> u8 {
    if b {
        1u8
    } else {
        0u8
    }
}

/// The byte a lock-state field contributes.
pub open spec fn state_byte(s: State) -> u8 {
    match s {
        State::Unlocked => 0u8,
        State::LockedByAuthority => 1u8,
        State::LockedByDelegate => 2u8,
    }
}

/// The byte a delegate-role field contributes.
pub open spec fn role_byte(r: DelegateRole) -> u8 {
    match r {
        DelegateRole::All => 0u8,
        DelegateRole::Transfer => 1u8,
        DelegateRole::Lock => 2u8,
        DelegateRole::Burn => 3u8,
        DelegateRole::TransferAndLock => 4u8,
        DelegateRole::TransferAndBurn => 5u8,
        DelegateRole::LockAndBurn => 6u8,
    }
}

/// The layout of an optional 32-byte key: a tag byte, then the key when
/// present.
pub open spec fn option_key_bytes(o: Option<[u8; 32]>) -> Seq<u8> {
    match o {
        Option::None => seq![0u8],
        Option::Some(k) => seq![1u8] + k@,
    }
}

/// A length-prefixed byte string: little-endian u32 length, then the bytes.
pub open spec fn len_prefixed(b: Seq<u8>) -> Seq<u8>
    recommends
        b.len() <= u32::MAX,
{
    spec_u32_to_le_bytes(b.len() as u32) + b
}

/// The layout of a base-asset record: owner key, optional delegate key,
/// role byte, state byte.
pub open spec fn base_data_bytes(d: BaseData) -> Seq<u8> {
    d.owner@ + option_key_bytes(d.delegate) + seq![role_byte(d.delegate_role)] + seq![
        state_byte(d.state),
    ]
}

/// The layout of a metadata record: mutability byte, optional group and
/// authority keys, the two attachment flags.
pub open spec fn asset_data_bytes(d: AssetData) -> Seq<u8> {
    seq![bool_byte(d.mutable)] + option_key_bytes(d.group) + option_key_bytes(d.authority) + seq![
        bool_byte(d.has_attributes),
    ] + seq![bool_byte(d.has_blob)]
}

/// The layout of a blob record: length-prefixed content type, then the raw
/// 64-byte upload reference.
pub open spec fn blob_bytes(b: Blob) -> Seq<u8> {
    len_prefixed(encode_utf8(b.content_type@)) + b.tx_sig@
}

/// Whether a blob fits the layout's length prefixes.
pub open spec fn blob_serializable(b: Blob) -> bool {
    encode_utf8(b.content_type@).len() <= u32::MAX
}

/// The layout of one attribute: two length-prefixed strings.
pub open spec fn attribute_bytes(a: Attribute) -> Seq<u8> {
    len_prefixed(encode_utf8(a.trait_type@)) + len_prefixed(encode_utf8(a.value@))
}

/// The layout of an attribute list, in order.
pub open spec fn attribute_list_bytes(s: Seq<Attribute>) -> Seq<u8>
    decreases s.len(),
{
    if s.len() == 0 {
        Seq::empty()
    } else {
        attribute_list_bytes(s.drop_last()) + attribute_bytes(s.last())
    }
}

/// The layout of an attribute-set record: optional group key, then the
/// length-prefixed attribute list.
pub open spec fn attributes_bytes(a: Attributes) -> Seq<u8> {
    option_key_bytes(a.group) + spec_u32_to_le_bytes(a.attributes@.len() as u32)
        + attribute_list_bytes(a.attributes@)
}

/// Whether an attribute list fits the layout's length prefixes.
pub open spec fn attribute_list_serializable(s: Seq<Attribute>) -> bool {
    &&& s.len() <= u32::MAX
    &&& forall|i: int|
        0 <= i < s.len() ==> (encode_utf8(#[trigger] s[i].trait_type@).len() <= u32::MAX
            && encode_utf8(s[i].value@).len() <= u32::MAX)
}

/// Whether an attribute-set record fits the layout's length prefixes.
pub open spec fn attributes_serializable(a: Attributes) -> bool {
    attribute_list_serializable(a.attributes@)
}

/// The 8-byte tag of a record type, from the digest of `"account:"`
/// followed by the record's name.
pub open spec fn account_discriminator(name: Seq<u8>) -> Seq<u8> {
    sha256_of("account:".spec_bytes() + name).take(8)
}

/// Computes the 8-byte record tag of the record type called `name`.
pub fn discriminator_of(name: &str) -> (r: [u8; 8])
    ensures
        r@ == account_discriminator(name.spec_bytes()),
{
    let h = sha256_pair("account:".as_bytes(), name.as_bytes());
    let mut r = [0u8; 8];
    let mut i: usize = 0;
    while i < 8
        invariant
            0 <= i <= 8,
            forall|j: int| 0 <= j < i ==> r@[j] == h@[j],
        decreases 8 - i,
    {
        r[i] = h[i];
        i = i + 1;
    }
    proof {
        assert(r@ =~= h@.take(8));
    }
    r
}

/// Appends a byte slice.
pub fn push_bytes(out: &mut Vec<u8>, bytes: &[u8])
    ensures
        final(out)@ == old(out)@ + bytes@,
{
    let mut tail = slice_to_vec(bytes);
    out.append(&mut tail);
}

/// Appends a little-endian u32.
pub fn push_u32_le(out: &mut Vec<u8>, x: u32)
    ensures
        final(out)@ == old(out)@ + spec_u32_to_le_bytes(x),
{
    let mut tail = u32_to_le_bytes(x);
    out.append(&mut tail);
}

/// Appends an optional 32-byte key in its tagged layout.
pub fn push_option_key(out: &mut Vec<u8>, o: &Option<[u8; 32]>)
    ensures
        final(out)@ == old(out)@ + option_key_bytes(*o),
{
    match o {
        Option::None => {
            out.push(0u8);
            proof {
                assert(final(out)@ =~= old(out)@ + option_key_bytes(*o));
            }
        },
        Option::Some(k) => {
            out.push(1u8);
            push_bytes(out, k.as_slice());
            proof {
                assert(final(out)@ =~= old(out)@ + option_key_bytes(*o));
            }
        },
    }
}

/// Appends a length-prefixed string.
pub fn push_str(out: &mut Vec<u8>, s: &str)
    requires
        s.spec_bytes().len() <= u32::MAX,
    ensures
        final(out)@ == old(out)@ + len_prefixed(s.spec_bytes()),
{
    let bytes = s.as_bytes();
    push_u32_le(out, bytes.len() as u32);
    push_bytes(out, bytes);
    proof {
        assert(final(out)@ =~= old(out)@ + len_prefixed(s.spec_bytes()));
    }
}

/// Serializes a base-asset record into its canonical layout.
pub fn serialize_base_data(d: &BaseData) -> (r: Vec<u8>)
    ensures
        r@ == base_data_bytes(*d),
{
    let mut out: Vec<u8> = Vec::new();
    push_bytes(&mut out, d.owner.as_slice());
    push_option_key(&mut out, &d.delegate);
    out.push(role_byte_of(&d.delegate_role));
    out.push(state_byte_of(&d.state));
    proof {
        assert(out@ =~= base_data_bytes(*d));
    }
    out
}

/// Serializes a metadata record into its canonical layout.
pub fn serialize_asset_data(d: &AssetData) -> (r: Vec<u8>)
    ensures
        r@ == asset_data_bytes(*d),
{
    let mut out: Vec<u8> = Vec::new();
    out.push(if d.mutable {
        1u8
    } else {
        0u8
    });
    push_option_key(&mut out, &d.group);
    push_option_key(&mut out, &d.authority);
    out.push(if d.has_attributes {
        1u8
    } else {
        0u8
    });
    out.push(if d.has_blob {
        1u8
    } else {
        0u8
    });
    proof {
        assert(out@ =~= asset_data_bytes(*d));
    }
    out
}

/// Serializes a blob record into its canonical layout.
pub fn serialize_blob(b: &Blob) -> (r: Vec<u8>)
    requires
        blob_serializable(*b),
    ensures
        r@ == blob_bytes(*b),
{
    let mut out: Vec<u8> = Vec::new();
    push_str(&mut out, b.content_type.as_str());
    push_bytes(&mut out, b.tx_sig.as_slice());
    proof {
        assert(out@ =~= blob_bytes(*b));
    }
    out
}

/// Serializes an attribute-set record into its canonical layout.
pub fn serialize_attributes(a: &Attributes) -> (r: Vec<u8>)
    requires
        attributes_serializable(*a),
    ensures
        r@ == attributes_bytes(*a),
{
    let mut out: Vec<u8> = Vec::new();
    push_option_key(&mut out, &a.group);
    push_u32_le(&mut out, a.attributes.len() as u32);
    let ghost prefix = out@;
    let mut i: usize = 0;
    while i < a.attributes.len()
        invariant
            0 <= i <= a.attributes@.len(),
            attributes_serializable(*a),
            out@ == prefix + attribute_list_bytes(a.attributes@.take(i as int)),
        decreases a.attributes@.len() - i,
    {
        let at = &a.attributes[i];
        push_str(&mut out, at.trait_type.as_str());
        push_str(&mut out, at.value.as_str());
        proof {
            assert(a.attributes@.take(i + 1 as int).drop_last() =~= a.attributes@.take(i as int));
            assert(a.attributes@.take(i + 1 as int).last() == a.attributes@[i as int]);
            assert(out@ =~= prefix + attribute_list_bytes(a.attributes@.take(i + 1 as int)));
        }
        i = i + 1;
    }
    proof {
        assert(a.attributes@.take(a.attributes@.len() as int) =~= a.attributes@);
        assert(out@ =~= attributes_bytes(*a));
    }
    out
}

/// The state byte of a lock state.
pub fn state_byte_of(s: &State) -> (r: u8)
    ensures
        r == state_byte(*s),
{
    match s {
        State::Unlocked => 0u8,
        State::LockedByAuthority => 1u8,
        State::LockedByDelegate => 2u8,
    }
}

/// The role byte of a delegate role.
pub fn role_byte_of(r: &DelegateRole) -> (b: u8)
    ensures
        b == role_byte(*r),
{
    match r {
        DelegateRole::All => 0u8,
        DelegateRole::Transfer => 1u8,
        DelegateRole::Lock => 2u8,
        DelegateRole::Burn => 3u8,
        DelegateRole::TransferAndLock => 4u8,
        DelegateRole::TransferAndBurn => 5u8,
        DelegateRole::LockAndBurn => 6u8,
    }
}

} // verus!
