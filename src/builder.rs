use crate::address::{base58_address, derivation, seeds_view, Address, AddressError, DeriveError};
use crate::instruction::{
    describes, AccountView, Instruction, InstructionAccount, InstructionView, Response,
};
use vstd::prelude::*;
use vstd::slice::slice_to_vec;
use vstd::utf8::encode_utf8;

verus! {

/// Base58 text of the program that owns the proposal storage and authority state.
pub const AUTHORITY_PROGRAM_ID: &'static str = "FGgNUqGxdEYM1gVtQT5QcTbzNv4y1UPoVvXPRnooBdxo";

/// Base58 text of the oracle program that the proposal instruction targets.
pub const ORACLE_PROGRAM_ID: &'static str = "ECb6jyKXDTE8NjVjsKgNpjSjcv4h2E7JQ42yKqWihBQE";

/// Base58 text of the instruction-introspection system account.
pub const INSTRUCTIONS_SYSVAR_ID: &'static str = "Sysvar1nstructions1111111111111111111111111";

/// Bytes reserved for the proposal storage: three instructions of 25 bytes.
pub const STORAGE_SPACE: u32 = 75;

/// The request of one invocation.
#[derive(Debug)]
pub struct Input {
    /// Name of the Proof-of-Authority instance.
    pub poa_name: String,
    /// Name of the storage slot of the proposal.
    pub proposal_storage_key: String,
}

/// The well-known addresses that the builder works with.
#[derive(Clone, Copy, Debug)]
pub struct OracleConfig {
    /// Owner under which the storage and state addresses are derived.
    pub authority_program: Address,
    /// Target of the proposal instruction.
    pub oracle_program: Address,
    /// The instruction-introspection system account.
    pub instructions_sysvar: Address,
}

/// The four little-endian bytes of `x`.
pub open spec fn le_bytes(x: u32) -> Seq<u8> {
    seq![(x % 256) as u8, (x / 256 % 256) as u8, (x / 65536 % 256) as u8, (x / 16777216) as u8]
}

/// Seeds of the proposal storage address.
pub open spec fn storage_seeds_of(poa_name: Seq<char>, storage_key: Seq<char>) -> Seq<Seq<u8>> {
    seq![encode_utf8("STORAGE"@), encode_utf8(poa_name), encode_utf8(storage_key), le_bytes(STORAGE_SPACE)]
}

/// Seeds of the authority state address.
pub open spec fn state_seeds_of(poa_name: Seq<char>) -> Seq<Seq<u8>> {
    seq![encode_utf8("STATE"@), encode_utf8(poa_name)]
}

/// The account list of the proposal instruction, in the order consumers index it.
pub open spec fn proposal_accounts(storage: Seq<u8>, state: Seq<u8>, config: OracleConfig) -> Seq<AccountView> {
    seq![
        AccountView { pubkey: storage, is_signer: false, is_writable: true },
        AccountView { pubkey: state, is_signer: false, is_writable: false },
        AccountView { pubkey: config.instructions_sysvar.bytes@, is_signer: false, is_writable: false },
        AccountView { pubkey: config.oracle_program.bytes@, is_signer: false, is_writable: false },
    ]
}

/// The proposal instruction for a PoA name and storage key, or the error of the
/// first derivation that fails.
pub open spec fn proposal_instruction(
    poa_name: Seq<char>,
    storage_key: Seq<char>,
    config: OracleConfig,
) -> Result<InstructionView, DeriveError> {
    let owner = config.authority_program.bytes@;
    match derivation(storage_seeds_of(poa_name, storage_key), owner) {
        Err(e) => Err(e),
        Ok(storage) => match derivation(state_seeds_of(poa_name), owner) {
            Err(e) => Err(e),
            Ok(state) => Ok(InstructionView {
                program_id: config.oracle_program.bytes@,
                accounts: proposal_accounts(storage, state, config),
                data: encode_utf8(poa_name),
            }),
        },
    }
}

/// What `build_instruction` returns, as plain values.
pub open spec fn instruction_result_view(r: Result<Instruction, DeriveError>) -> Result<InstructionView, DeriveError> {
    match r {
        Ok(ix) => Ok(ix@),
        Err(e) => Err(e),
    }
}

/// The four little-endian bytes of `x`.
pub fn le_bytes_u32(x: u32) -> (r: Vec<u8>)
    ensures
        r@ == le_bytes(x),
{
    let v = vec![(x % 256) as u8, (x / 256 % 256) as u8, (x / 65536 % 256) as u8, (x / 16777216) as u8];
    assert(v@ =~= le_bytes(x));
    v
}

impl OracleConfig {
    /// Parses the well-known addresses that the oracle works with.
    pub fn standard() -> (r: Result<OracleConfig, AddressError>)
        ensures
            r is Ok <==> (base58_address(AUTHORITY_PROGRAM_ID@) is Some && base58_address(ORACLE_PROGRAM_ID@) is Some
                && base58_address(INSTRUCTIONS_SYSVAR_ID@) is Some),
            r matches Ok(c) ==> (base58_address(AUTHORITY_PROGRAM_ID@) == Some(c.authority_program.bytes@)
                && base58_address(ORACLE_PROGRAM_ID@) == Some(c.oracle_program.bytes@)
                && base58_address(INSTRUCTIONS_SYSVAR_ID@) == Some(c.instructions_sysvar.bytes@)),
    {
        let authority_program = Address::parse(AUTHORITY_PROGRAM_ID)?;
        let oracle_program = Address::parse(ORACLE_PROGRAM_ID)?;
        let instructions_sysvar = Address::parse(INSTRUCTIONS_SYSVAR_ID)?;
        Ok(OracleConfig { authority_program, oracle_program, instructions_sysvar })
    }
}

impl Input {
    /// Seeds of the proposal storage address: the tag, the PoA name, the storage
    /// key and the reserved storage space in little-endian order.
    pub fn storage_seeds(&self) -> (r: Vec<Vec<u8>>)
        ensures
            seeds_view(r@) == storage_seeds_of(self.poa_name@, self.proposal_storage_key@),
    {
        let tag = slice_to_vec("STORAGE".as_bytes());
        let name = slice_to_vec(self.poa_name.as_str().as_bytes());
        let key = slice_to_vec(self.proposal_storage_key.as_str().as_bytes());
        let space = le_bytes_u32(STORAGE_SPACE);
        let r = vec![tag, name, key, space];
        assert(seeds_view(r@) =~= storage_seeds_of(self.poa_name@, self.proposal_storage_key@));
        r
    }

    /// Seeds of the authority state address: the tag and the PoA name.
    pub fn state_seeds(&self) -> (r: Vec<Vec<u8>>)
        ensures
            seeds_view(r@) == state_seeds_of(self.poa_name@),
    {
        let tag = slice_to_vec("STATE".as_bytes());
        let name = slice_to_vec(self.poa_name.as_str().as_bytes());
        let r = vec![tag, name];
        assert(seeds_view(r@) =~= state_seeds_of(self.poa_name@));
        r
    }
}

/// Builds the proposal instruction for `input`: the oracle program as target,
/// then the storage address (writable), the state address, the introspection
/// account and the oracle program itself (all read-only), with the PoA name's
/// bytes as payload.
pub fn build_instruction(input: &Input, config: &OracleConfig) -> (r: Result<Instruction, DeriveError>)
    ensures
        instruction_result_view(r) == proposal_instruction(input.poa_name@, input.proposal_storage_key@, *config),
{
    let storage = Address::derive(&input.storage_seeds(), &config.authority_program)?;
    let state = Address::derive(&input.state_seeds(), &config.authority_program)?;
    let accounts = vec![
        InstructionAccount { pubkey: storage, is_signer: false, is_writable: true },
        InstructionAccount { pubkey: state, is_signer: false, is_writable: false },
        InstructionAccount { pubkey: config.instructions_sysvar, is_signer: false, is_writable: false },
        InstructionAccount { pubkey: config.oracle_program, is_signer: false, is_writable: false },
    ];
    let data = slice_to_vec(input.poa_name.as_str().as_bytes());
    let ix = Instruction { program_id: config.oracle_program, accounts, data };
    assert(ix@.accounts =~= proposal_accounts(storage.bytes@, state.bytes@, *config));
    Ok(ix)
}

/// Builds the response that carries the proposal instruction for `input`.
pub fn build_response(input: &Input, config: &OracleConfig) -> (r: Result<Response, DeriveError>)
    ensures
        match (r, proposal_instruction(input.poa_name@, input.proposal_storage_key@, *config)) {
            (Ok(resp), Ok(ix)) => resp.proposal_instructions@.len() == 1 && describes(ix, resp.proposal_instructions@[0]),
            (Err(e), Err(f)) => e == f,
            _ => false,
        },
{
    let ix = build_instruction(input, config)?;
    let resp = Response::from_instruction(&ix);
    assert(describes(seq![ix@][0], resp.proposal_instructions@[0]));
    Ok(resp)
}

/// Building is deterministic: two builds from inputs with the same names and
/// the same configuration give the same instruction, or the same error.
pub proof fn lemma_build_deterministic(
    a: Input,
    b: Input,
    config: OracleConfig,
    ra: Result<Instruction, DeriveError>,
    rb: Result<Instruction, DeriveError>,
)
    requires
        a.poa_name@ == b.poa_name@,
        a.proposal_storage_key@ == b.proposal_storage_key@,
        instruction_result_view(ra) == proposal_instruction(a.poa_name@, a.proposal_storage_key@, config),
        instruction_result_view(rb) == proposal_instruction(b.poa_name@, b.proposal_storage_key@, config),
    ensures
        instruction_result_view(ra) == instruction_result_view(rb),
{
}

/// A built instruction has exactly four accounts: the storage address
/// (writable), the state address, the introspection account and the target
/// program (read-only, none of them signers); its payload is the PoA name's
/// bytes, unchanged.
pub proof fn lemma_proposal_shape(poa_name: Seq<char>, storage_key: Seq<char>, config: OracleConfig)
    requires
        proposal_instruction(poa_name, storage_key, config) is Ok,
    ensures
        ({
            let ix = proposal_instruction(poa_name, storage_key, config)->Ok_0;
            let owner = config.authority_program.bytes@;
            &&& ix.program_id == config.oracle_program.bytes@
            &&& ix.accounts.len() == 4
            &&& ix.accounts[0] == (AccountView {
                pubkey: derivation(storage_seeds_of(poa_name, storage_key), owner)->Ok_0,
                is_signer: false,
                is_writable: true,
            })
            &&& ix.accounts[1] == (AccountView {
                pubkey: derivation(state_seeds_of(poa_name), owner)->Ok_0,
                is_signer: false,
                is_writable: false,
            })
            &&& ix.accounts[2] == (AccountView { pubkey: config.instructions_sysvar.bytes@, is_signer: false, is_writable: false })
            &&& ix.accounts[3] == (AccountView { pubkey: config.oracle_program.bytes@, is_signer: false, is_writable: false })
            &&& ix.data == encode_utf8(poa_name)
        }),
{
}

} // verus!
