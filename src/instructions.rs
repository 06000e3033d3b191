//! Instruction bytes and the account lists that go with them.
use vstd::prelude::*;

use crate::bytes::{append_slice, array_from_slice, array_to_vec, slice_range};
use crate::config::Config;
use crate::error::WorldError;
use crate::mojo_types::{
    discriminator_of, header_bytes, le_bytes, le_value, lemma_le_round_trip, u64_from_le, u64_to_le,
    GenIxHandler, MojoInstructions, HEADER_LEN,
};
use crate::pda::{derive_address, derived, seeds_view};

verus! {

/// One account an instruction touches, with its signer and writable flags.
#[derive(Clone, Copy, Debug, PartialEq, Eq)]
pub struct AccountMeta {
    pub pubkey: [u8; 32],
    pub is_signer: bool,
    pub is_writable: bool,
}

/// A writable account entry.
pub open spec fn writable(pubkey: [u8; 32], is_signer: bool) -> AccountMeta {
    AccountMeta { pubkey, is_signer, is_writable: true }
}

/// A read-only account entry.
pub open spec fn readonly(pubkey: [u8; 32], is_signer: bool) -> AccountMeta {
    AccountMeta { pubkey, is_signer, is_writable: false }
}

impl AccountMeta {
    /// A writable account entry.
    pub fn new(pubkey: [u8; 32], is_signer: bool) -> (r: AccountMeta)
        ensures
            r == writable(pubkey, is_signer),
    {
        AccountMeta { pubkey, is_signer, is_writable: true }
    }

    /// A read-only account entry.
    pub fn new_readonly(pubkey: [u8; 32], is_signer: bool) -> (r: AccountMeta)
        ensures
            r == readonly(pubkey, is_signer),
    {
        AccountMeta { pubkey, is_signer, is_writable: false }
    }
}

/// An instruction for a program: its accounts in positional order, and its bytes.
#[derive(Clone, Debug)]
pub struct Instruction {
    pub program_id: [u8; 32],
    pub accounts: Vec<AccountMeta>,
    pub data: Vec<u8>,
}

/// Byte offset of the payload in an encoded instruction.
pub const PAYLOAD_OFFSET: usize = 41;

/// `[kind][seed hash: 32][payload length: 8, little-endian][payload]`.
pub open spec fn encoded(kind: MojoInstructions, seed_hash: Seq<u8>, payload: Seq<u8>) -> Seq<u8> {
    seq![discriminator_of(kind)] + seed_hash + le_bytes(payload.len() as u64) + payload
}

/// The payload length that encoded bytes declare.
pub open spec fn declared_len(b: Seq<u8>) -> u64 {
    le_value(b.subrange(33, 41))
}

/// Encoded bytes that decode: a full header, a known kind, and a length
/// field equal to the trailing byte count.
pub open spec fn decodable(b: Seq<u8>) -> bool {
    b.len() >= 41 && b[0] <= 4 && declared_len(b) == b.len() - 41
}

/// The leading byte, then the header's bytes, then the payload.
pub fn encode_instruction(discriminator: MojoInstructions, handler: &GenIxHandler, payload: &[u8]) -> (r:
    Vec<u8>)
    ensures
        r@ == seq![discriminator_of(discriminator)] + header_bytes(*handler) + payload@,
{
    let mut bytes: Vec<u8> = Vec::with_capacity(1 + HEADER_LEN);
    bytes.push(discriminator.discriminator());
    let handler_bytes = handler.to_bytes();
    append_slice(&mut bytes, handler_bytes.as_slice());
    append_slice(&mut bytes, payload);
    assert(bytes@ =~= seq![discriminator_of(discriminator)] + header_bytes(*handler) + payload@);
    bytes
}

/// The header for `seed_hash` and a payload of `len` bytes.
fn header_for(seed_hash: [u8; 32], len: usize) -> (r: GenIxHandler)
    ensures
        r.seeds == seed_hash,
        r.size@ == le_bytes(len as u64),
{
    let mut handler = GenIxHandler::new(u64_to_le(len as u64));
    handler.seeds = seed_hash;
    handler
}

/// The encoded bytes of an instruction of `kind` for `seed_hash` and `payload`.
pub fn encode(kind: MojoInstructions, seed_hash: [u8; 32], payload: &[u8]) -> (r: Vec<u8>)
    ensures
        r@ == encoded(kind, seed_hash@, payload@),
{
    let handler = header_for(seed_hash, payload.len());
    let r = encode_instruction(kind, &handler, payload);
    assert(r@ =~= encoded(kind, seed_hash@, payload@));
    r
}

/// An encoded instruction read back into its parts.
#[derive(Debug)]
pub struct DecodedInstruction {
    pub kind: MojoInstructions,
    pub seed_hash: [u8; 32],
    pub payload_len: u64,
    pub payload: Vec<u8>,
}

/// Reads encoded instruction bytes. Bytes shorter than the header, or whose
/// length field differs from the trailing byte count, give
/// `SerializationError`; an unknown leading byte gives `UnknownDiscriminator`.
pub fn decode_instruction(bytes: &[u8]) -> (r: Result<DecodedInstruction, WorldError>)
    ensures
        r is Ok <==> decodable(bytes@),
        bytes@.len() < 41 ==> r matches Err(WorldError::SerializationError),
        bytes@.len() >= 41 && bytes@[0] > 4 ==> r == Err::<DecodedInstruction, WorldError>(
            WorldError::UnknownDiscriminator(bytes@[0]),
        ),
        bytes@.len() >= 41 && bytes@[0] <= 4 && declared_len(bytes@) != bytes@.len() - 41
            ==> r matches Err(WorldError::SerializationError),
        r matches Ok(d) ==> {
            &&& discriminator_of(d.kind) == bytes@[0]
            &&& d.seed_hash@ == bytes@.subrange(1, 33)
            &&& d.payload_len == declared_len(bytes@)
            &&& d.payload@ == bytes@.subrange(41, bytes@.len() as int)
        },
{
    let n: usize = bytes.len();
    if n < PAYLOAD_OFFSET {
        return Err(WorldError::SerializationError);
    }
    let kind = match MojoInstructions::from_discriminator(bytes[0]) {
        Some(k) => k,
        None => {
            return Err(WorldError::UnknownDiscriminator(bytes[0]));
        },
    };
    let seed_hash = array_from_slice(bytes, 1);
    let size: [u8; 8] = [
        bytes[33],
        bytes[34],
        bytes[35],
        bytes[36],
        bytes[37],
        bytes[38],
        bytes[39],
        bytes[40],
    ];
    assert(size@ =~= bytes@.subrange(33, 41));
    let payload_len = u64_from_le(size);
    if payload_len != (n - PAYLOAD_OFFSET) as u64 {
        return Err(WorldError::SerializationError);
    }
    let payload = slice_range(bytes, PAYLOAD_OFFSET, n);
    Ok(DecodedInstruction { kind, seed_hash, payload_len, payload })
}

/// Decoding what `encode` produced gives back the kind, the seed hash, the
/// payload length and the payload.
pub proof fn lemma_encode_decode(kind: MojoInstructions, seed_hash: [u8; 32], payload: Seq<u8>)
    requires
        payload.len() + 41 <= u64::MAX,
    ensures
        decodable(encoded(kind, seed_hash@, payload)),
        encoded(kind, seed_hash@, payload)[0] == discriminator_of(kind),
        encoded(kind, seed_hash@, payload).subrange(1, 33) == seed_hash@,
        declared_len(encoded(kind, seed_hash@, payload)) == payload.len(),
        encoded(kind, seed_hash@, payload).subrange(
            41,
            encoded(kind, seed_hash@, payload).len() as int,
        ) == payload,
{
    let b = encoded(kind, seed_hash@, payload);
    lemma_le_round_trip(payload.len() as u64);
    assert(b.subrange(33, 41) =~= le_bytes(payload.len() as u64));
    assert(b.subrange(1, 33) =~= seed_hash@);
    assert(b.subrange(41, b.len() as int) =~= payload);
}

/// Accounts of CreateAccount: payer, new account, system program, rent sysvar.
pub open spec fn create_accounts(c: Config, payer: [u8; 32], account: [u8; 32]) -> Seq<AccountMeta> {
    seq![
        writable(payer, true),
        writable(account, false),
        readonly(c.system_program_id, false),
        readonly(c.rent_sysvar_id, false),
    ]
}

/// Accounts of DelegateAccount, every one writable.
pub open spec fn delegate_accounts(
    c: Config,
    payer: [u8; 32],
    account: [u8; 32],
    buffer: [u8; 32],
    record: [u8; 32],
    metadata: [u8; 32],
) -> Seq<AccountMeta> {
    seq![
        writable(payer, true),
        writable(account, false),
        writable(c.program_id, false),
        writable(buffer, false),
        writable(record, false),
        writable(metadata, false),
        writable(c.system_program_id, false),
        writable(c.delegation_program_id, false),
        writable(c.validator_id, false),
    ]
}

/// Accounts of a base-layer write: payer and account.
pub open spec fn base_write_accounts(payer: [u8; 32], account: [u8; 32]) -> Seq<AccountMeta> {
    seq![writable(payer, true), writable(account, false)]
}

/// Accounts of an ephemeral-layer write: payer, account, magic context, magic program.
pub open spec fn ephemeral_write_accounts(c: Config, payer: [u8; 32], account: [u8; 32]) -> Seq<
    AccountMeta,
> {
    seq![
        writable(payer, true),
        writable(account, false),
        readonly(c.magic_context_id, false),
        readonly(c.magic_program_id, false),
    ]
}

/// Instruction that creates `world` with `state_data` as its initial bytes.
pub fn create_world_ix(
    config: &Config,
    payer: [u8; 32],
    world: [u8; 32],
    seed_hash: [u8; 32],
    state_data: &[u8],
) -> (r: Instruction)
    ensures
        r.program_id == config.program_id,
        r.accounts@ == create_accounts(*config, payer, world),
        r.data@ == encoded(MojoInstructions::CreateAccount, seed_hash@, state_data@),
{
    let data = encode(MojoInstructions::CreateAccount, seed_hash, state_data);
    let accounts: Vec<AccountMeta> = vec![
        AccountMeta::new(payer, true),
        AccountMeta::new(world, false),
        AccountMeta::new_readonly(config.system_program_id, false),
        AccountMeta::new_readonly(config.rent_sysvar_id, false),
    ];
    assert(accounts@ =~= create_accounts(*config, payer, world));
    Instruction { program_id: config.program_id, accounts, data }
}

/// Domain tag of the buffer address: `"buffer"`.
pub open spec fn buffer_tag() -> Seq<u8> {
    seq![98u8, 117u8, 102u8, 102u8, 101u8, 114u8]
}

/// Domain tag of the delegation record address: `"delegation"`.
pub open spec fn delegation_record_tag() -> Seq<u8> {
    seq![100u8, 101u8, 108u8, 101u8, 103u8, 97u8, 116u8, 105u8, 111u8, 110u8]
}

/// Domain tag of the delegation metadata address: `"delegation-metadata"`.
pub open spec fn delegation_metadata_tag() -> Seq<u8> {
    delegation_record_tag() + seq![45u8, 109u8, 101u8, 116u8, 97u8, 100u8, 97u8, 116u8, 97u8]
}

/// Derives the address under `program_id` seeded by `tag` and `account`.
fn tagged_address(tag: Vec<u8>, account: &[u8; 32], program_id: &[u8; 32]) -> (r: Result<
    [u8; 32],
    WorldError,
>)
    ensures
        r is Ok <==> derived(seq![tag@, account@], program_id@) is Ok,
        r matches Ok(a) ==> derived(seq![tag@, account@], program_id@) matches Ok(p) && a == p.0,
        r matches Err(e) ==> e is AddressDerivationError,
{
    let seeds: Vec<Vec<u8>> = vec![tag, array_to_vec(account)];
    assert(seeds_view(seeds@) =~= seq![tag@, account@]);
    match derive_address(program_id, &seeds) {
        Ok(p) => Ok(p.0),
        Err(e) => Err(e),
    }
}

/// The buffer, delegation record and delegation metadata addresses of `account`.
pub open spec fn delegation_addresses(c: Config, account: [u8; 32]) -> Option<
    ([u8; 32], [u8; 32], [u8; 32]),
> {
    match (
        derived(seq![buffer_tag(), account@], c.program_id@),
        derived(seq![delegation_record_tag(), account@], c.delegation_program_id@),
        derived(seq![delegation_metadata_tag(), account@], c.delegation_program_id@),
    ) {
        (Ok(b), Ok(r), Ok(m)) => Some((b.0, r.0, m.0)),
        _ => None,
    }
}

/// Instruction that delegates `account` to the ephemeral layer, carrying
/// `state_data`. Fails with `AddressDerivationError` when one of the
/// side addresses cannot be derived.
pub fn delegate_account_ix(
    config: &Config,
    payer: [u8; 32],
    account: [u8; 32],
    seed_hash: [u8; 32],
    state_data: &[u8],
) -> (r: Result<Instruction, WorldError>)
    ensures
        r is Ok <==> delegation_addresses(*config, account) is Some,
        r matches Err(e) ==> e is AddressDerivationError,
        r matches Ok(ix) ==> delegation_addresses(*config, account) matches Some(
            (b, rec, m),
        ) && {
            &&& ix.program_id == config.program_id
            &&& ix.accounts@ == delegate_accounts(*config, payer, account, b, rec, m)
            &&& ix.data@ == encoded(MojoInstructions::DelegateAccount, seed_hash@, state_data@)
        },
{
    let buffer_seed: Vec<u8> = vec![98u8, 117u8, 102u8, 102u8, 101u8, 114u8];
    assert(buffer_seed@ =~= buffer_tag());
    let buffer = tagged_address(buffer_seed, &account, &config.program_id)?;
    let record_seed: Vec<u8> = vec![100u8, 101u8, 108u8, 101u8, 103u8, 97u8, 116u8, 105u8, 111u8, 110u8];
    assert(record_seed@ =~= delegation_record_tag());
    let record = tagged_address(record_seed, &account, &config.delegation_program_id)?;
    let metadata_seed: Vec<u8> = vec![
        100u8, 101u8, 108u8, 101u8, 103u8, 97u8, 116u8, 105u8, 111u8, 110u8,
        45u8, 109u8, 101u8, 116u8, 97u8, 100u8, 97u8, 116u8, 97u8,
    ];
    assert(metadata_seed@ =~= delegation_metadata_tag());
    let metadata = tagged_address(metadata_seed, &account, &config.delegation_program_id)?;
    let data = encode(MojoInstructions::DelegateAccount, seed_hash, state_data);
    let accounts: Vec<AccountMeta> = vec![
        AccountMeta::new(payer, true),
        AccountMeta::new(account, false),
        AccountMeta::new(config.program_id, false),
        AccountMeta::new(buffer, false),
        AccountMeta::new(record, false),
        AccountMeta::new(metadata, false),
        AccountMeta::new(config.system_program_id, false),
        AccountMeta::new(config.delegation_program_id, false),
        AccountMeta::new(config.validator_id, false),
    ];
    assert(accounts@ =~= delegate_accounts(*config, payer, account, buffer, record, metadata));
    Ok(Instruction { program_id: config.program_id, accounts, data })
}

/// Ephemeral-layer write of `state_data` into a delegated `world`.
pub fn write_to_world_ix(
    config: &Config,
    payer: [u8; 32],
    world: [u8; 32],
    seed_hash: [u8; 32],
    state_data: &[u8],
) -> (r: Instruction)
    ensures
        r.program_id == config.program_id,
        r.accounts@ == ephemeral_write_accounts(*config, payer, world),
        r.data@ == encoded(MojoInstructions::UpdateDelegatedAccount, seed_hash@, state_data@),
{
    let data = encode(MojoInstructions::UpdateDelegatedAccount, seed_hash, state_data);
    let accounts: Vec<AccountMeta> = vec![
        AccountMeta::new(payer, true),
        AccountMeta::new(world, false),
        AccountMeta::new_readonly(config.magic_context_id, false),
        AccountMeta::new_readonly(config.magic_program_id, false),
    ];
    assert(accounts@ =~= ephemeral_write_accounts(*config, payer, world));
    Instruction { program_id: config.program_id, accounts, data }
}

/// Base-layer write of `state_data` into an undelegated `world`.
pub fn write_base_ix(
    config: &Config,
    payer: [u8; 32],
    world: [u8; 32],
    seed_hash: [u8; 32],
    state_data: &[u8],
) -> (r: Instruction)
    ensures
        r.program_id == config.program_id,
        r.accounts@ == base_write_accounts(payer, world),
        r.data@ == encoded(MojoInstructions::UpdateDelegatedAccount, seed_hash@, state_data@),
{
    let data = encode(MojoInstructions::UpdateDelegatedAccount, seed_hash, state_data);
    let accounts: Vec<AccountMeta> = vec![AccountMeta::new(payer, true), AccountMeta::new(world, false)];
    assert(accounts@ =~= base_write_accounts(payer, world));
    Instruction { program_id: config.program_id, accounts, data }
}

} // verus!
