//! The atomic replace bundle: the value handed to the external commitment
//! ledger. One bundle carries a validity proof, the addresses to register,
//! the commitments it consumes and the commitments it produces; the ledger
//! applies all of it or none of it.
use vstd::prelude::*;
use vstd::string::StringSliceAdditionalSpecFns;
use vstd::string::StrSliceExecFns;
use crate::state::{NewAddressParams, PackedMerkleContext};

verus! {

/// The address this program owns its ledger records under.
pub const PROGRAM_ID: [u8; 32] = [
    14u8, 203u8, 36u8, 0u8, 6u8, 186u8, 173u8, 154u8, 47u8, 82u8, 21u8, 45u8, 86u8, 0u8, 168u8,
    58u8, 105u8, 34u8, 2u8, 223u8, 7u8, 196u8, 126u8, 109u8, 220u8, 120u8, 55u8, 0u8, 194u8, 25u8,
    239u8, 141u8,
];

/// The signing authority seed this program hands to the ledger with every
/// bundle.
pub const CPI_AUTHORITY_SEED: &'static str = "cpi_authority";

/// The bump byte completing the signing authority derivation.
pub const CPI_AUTHORITY_BUMP: u8 = 254;

/// An opaque validity proof, positioned in the bundle and verified by the
/// external service.
#[derive(Clone, Copy, Debug)]
pub struct CompressedProof {
    pub a: [u8; 32],
    pub b: [u8; 64],
    pub c: [u8; 32],
}

/// The payload of a ledger record: an 8-byte record tag, the serialized
/// record, and its commitment.
#[derive(Clone, Debug)]
pub struct CompressedAccountData {
    pub discriminator: [u8; 8],
    pub data: Vec<u8>,
    pub data_hash: [u8; 32],
}

/// One ledger record: owning program, lamport balance, its permanent
/// address, and its payload.
#[derive(Clone, Debug)]
pub struct CompressedAccount {
    pub owner: [u8; 32],
    pub lamports: u64,
    pub address: Option<[u8; 32]>,
    pub data: Option<CompressedAccountData>,
}

/// A record the bundle produces, with the tree it goes into.
#[derive(Clone, Debug)]
pub struct OutputCompressedAccountWithPackedContext {
    pub compressed_account: CompressedAccount,
    pub merkle_tree_index: u8,
}

/// A record the bundle consumes, with the selectors proving its inclusion.
#[derive(Clone, Debug)]
pub struct PackedCompressedAccountWithMerkleContext {
    pub compressed_account: CompressedAccount,
    pub merkle_context: PackedMerkleContext,
    pub root_index: u16,
    pub read_only: bool,
}

/// A new address the bundle registers, with the caller-chosen tree
/// selectors.
#[derive(Clone, Copy, Debug)]
pub struct NewAddressParamsPacked {
    pub seed: [u8; 32],
    pub address_queue_account_index: u8,
    pub address_merkle_tree_account_index: u8,
    pub address_merkle_tree_root_index: u16,
}

/// Selector of a shared context slot in the ledger; unused by this program.
#[derive(Clone, Copy, Debug)]
pub struct CompressedCpiContext {
    pub set_context: bool,
    pub first_set_context: bool,
    pub cpi_context_account_index: u8,
}

/// One atomic unit of ledger submission.
#[derive(Clone, Debug)]
pub struct InstructionDataInvokeCpi {
    pub proof: Option<CompressedProof>,
    pub new_address_params: Vec<NewAddressParamsPacked>,
    pub input_compressed_accounts_with_merkle_context: Vec<
        PackedCompressedAccountWithMerkleContext,
    >,
    pub output_compressed_accounts: Vec<OutputCompressedAccountWithPackedContext>,
    pub relay_fee: Option<u64>,
    pub compress_or_decompress_lamports: Option<u64>,
    pub is_compress: bool,
    pub signer_seeds: Vec<Vec<u8>>,
    pub cpi_context: Option<CompressedCpiContext>,
}

/// The signer seeds every bundle carries.
pub open spec fn cpi_signer_seeds() -> Seq<Seq<u8>> {
    seq!["cpi_authority".spec_bytes(), seq![CPI_AUTHORITY_BUMP]]
}

/// A ledger record of this program at `address`, holding the serialized
/// record `data` tagged `disc`, committed to by `data_hash`.
pub open spec fn is_record(
    acc: CompressedAccount,
    address: Seq<u8>,
    disc: Seq<u8>,
    data: Seq<u8>,
    data_hash: Seq<u8>,
) -> bool {
    &&& acc.owner@ == PROGRAM_ID@
    &&& acc.lamports == 0
    &&& acc.address is Some && acc.address->0@ == address
    &&& acc.data is Some
    &&& acc.data->0.discriminator@ == disc
    &&& acc.data->0.data@ == data
    &&& acc.data->0.data_hash@ == data_hash
}

/// A produced record, going into the tree at `merkle_tree_index`.
pub open spec fn is_output_record(
    o: OutputCompressedAccountWithPackedContext,
    address: Seq<u8>,
    disc: Seq<u8>,
    data: Seq<u8>,
    data_hash: Seq<u8>,
    merkle_tree_index: u8,
) -> bool {
    &&& is_record(o.compressed_account, address, disc, data, data_hash)
    &&& o.merkle_tree_index == merkle_tree_index
}

/// A consumed record, located by the caller-supplied selectors.
pub open spec fn is_input_record(
    inp: PackedCompressedAccountWithMerkleContext,
    address: Seq<u8>,
    disc: Seq<u8>,
    data: Seq<u8>,
    data_hash: Seq<u8>,
    ctx: PackedMerkleContext,
    root_index: u16,
) -> bool {
    &&& is_record(inp.compressed_account, address, disc, data, data_hash)
    &&& inp.merkle_context == ctx
    &&& inp.root_index == root_index
    &&& !inp.read_only
}

/// A registered address request carrying `seed` with the caller-chosen
/// selectors of `params`.
pub open spec fn is_new_address(
    p: NewAddressParamsPacked,
    seed: Seq<u8>,
    params: NewAddressParams,
) -> bool {
    &&& p.seed@ == seed
    &&& p.address_queue_account_index == params.address_queue_account_index
    &&& p.address_merkle_tree_account_index == params.address_merkle_tree_account_index
    &&& p.address_merkle_tree_root_index == params.address_merkle_tree_root_index
}

/// The fixed framing of every bundle this program submits: it carries the
/// given proof, moves no lamports, and signs with the program authority.
pub open spec fn bundle_framing(b: InstructionDataInvokeCpi, proof: CompressedProof) -> bool {
    &&& b.proof is Some && b.proof->0 == proof
    &&& b.relay_fee is None
    &&& b.compress_or_decompress_lamports is None
    &&& !b.is_compress
    &&& b.signer_seeds.deep_view() == cpi_signer_seeds()
    &&& b.cpi_context is None
}

/// Builds a produced record.
pub fn make_output_record(
    address: [u8; 32],
    discriminator: [u8; 8],
    data: Vec<u8>,
    data_hash: [u8; 32],
    merkle_tree_index: u8,
) -> (o: OutputCompressedAccountWithPackedContext)
    ensures
        is_output_record(o, address@, discriminator@, data@, data_hash@, merkle_tree_index),
{
    OutputCompressedAccountWithPackedContext {
        compressed_account: CompressedAccount {
            owner: PROGRAM_ID,
            lamports: 0,
            address: Some(address),
            data: Some(
                CompressedAccountData { discriminator, data, data_hash },
            ),
        },
        merkle_tree_index,
    }
}

/// Builds a consumed record.
pub fn make_input_record(
    address: [u8; 32],
    discriminator: [u8; 8],
    data: Vec<u8>,
    data_hash: [u8; 32],
    merkle_context: PackedMerkleContext,
    root_index: u16,
) -> (inp: PackedCompressedAccountWithMerkleContext)
    ensures
        is_input_record(
            inp,
            address@,
            discriminator@,
            data@,
            data_hash@,
            merkle_context,
            root_index,
        ),
{
    PackedCompressedAccountWithMerkleContext {
        compressed_account: CompressedAccount {
            owner: PROGRAM_ID,
            lamports: 0,
            address: Some(address),
            data: Some(
                CompressedAccountData { discriminator, data, data_hash },
            ),
        },
        merkle_context,
        root_index,
        read_only: false,
    }
}

/// Builds an address-registration request from the caller's selectors.
pub fn make_new_address(seed: [u8; 32], params: &NewAddressParams) -> (p: NewAddressParamsPacked)
    ensures
        is_new_address(p, seed@, *params),
{
    NewAddressParamsPacked {
        seed,
        address_queue_account_index: params.address_queue_account_index,
        address_merkle_tree_account_index: params.address_merkle_tree_account_index,
        address_merkle_tree_root_index: params.address_merkle_tree_root_index,
    }
}

/// Builds the signer seeds every bundle carries.
pub fn make_signer_seeds() -> (s: Vec<Vec<u8>>)
    ensures
        s.deep_view() == cpi_signer_seeds(),
{
    let mut s: Vec<Vec<u8>> = Vec::new();
    s.push(CPI_AUTHORITY_SEED.as_bytes_vec());
    let mut bump: Vec<u8> = Vec::new();
    bump.push(CPI_AUTHORITY_BUMP);
    s.push(bump);
    proof {
        assert(s.deep_view() =~~= cpi_signer_seeds());
    }
    s
}

/// Frames one atomic bundle around a proof and the records it registers,
/// consumes and produces.
pub fn make_bundle(
    proof: CompressedProof,
    new_address_params: Vec<NewAddressParamsPacked>,
    inputs: Vec<PackedCompressedAccountWithMerkleContext>,
    outputs: Vec<OutputCompressedAccountWithPackedContext>,
) -> (b: InstructionDataInvokeCpi)
    ensures
        bundle_framing(b, proof),
        b.new_address_params == new_address_params,
        b.input_compressed_accounts_with_merkle_context == inputs,
        b.output_compressed_accounts == outputs,
{
    InstructionDataInvokeCpi {
        proof: Some(proof),
        new_address_params,
        input_compressed_accounts_with_merkle_context: inputs,
        output_compressed_accounts: outputs,
        relay_fee: None,
        compress_or_decompress_lamports: None,
        is_compress: false,
        signer_seeds: make_signer_seeds(),
        cpi_context: None,
    }
}

} // verus!
