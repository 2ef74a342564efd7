use vstd::prelude::*;

use crate::codec::Address;
use crate::error::EngineError;
use solana_sdk::program_error::ProgramError;
use solana_sdk::pubkey::Pubkey;

verus! {

/// The token program builders' error type, carried through opaquely.
#[verifier::external_type_specification]
#[verifier::external_body]
pub struct ExProgramError(ProgramError);

/// The associated token account address that `get_associated_token_address`
/// derives from an owner and a mint.
pub uninterp spec fn associated_address(owner: Seq<u8>, mint: Seq<u8>) -> Seq<u8>;

/// The system program's id, `11111111111111111111111111111111`.
pub open spec fn system_program_id() -> Seq<u8> {
    Seq::new(32, |i: int| 0u8)
}

/// The token program's id, `TokenkegQfeZyiNwAJbNbGKPFXCWuBvf9Ss623VQ5DA`.
pub open spec fn token_program_id() -> Seq<u8> {
    seq![
        6u8, 221, 246, 225, 215, 101, 161, 147, 217, 203, 225, 70, 206, 235, 121, 172,
        28, 180, 133, 237, 95, 91, 55, 145, 58, 140, 245, 133, 126, 255, 0, 169,
    ]
}

/// The rent sysvar's id, `SysvarRent111111111111111111111111111111111`.
pub open spec fn rent_sysvar_id() -> Seq<u8> {
    seq![
        6u8, 167, 213, 23, 25, 44, 92, 81, 33, 140, 201, 76, 61, 74, 241, 127,
        88, 218, 238, 8, 155, 161, 253, 68, 227, 219, 217, 138, 0, 0, 0, 0,
    ]
}

/// The eight little-endian bytes of `n`.
pub open spec fn u64_le(n: u64) -> Seq<u8> {
    seq![
        (n & 0xff) as u8,
        ((n >> 8) & 0xff) as u8,
        ((n >> 16) & 0xff) as u8,
        ((n >> 24) & 0xff) as u8,
        ((n >> 32) & 0xff) as u8,
        ((n >> 40) & 0xff) as u8,
        ((n >> 48) & 0xff) as u8,
        ((n >> 56) & 0xff) as u8,
    ]
}

/// One account slot of an instruction.
#[derive(Clone, Copy, Debug, PartialEq, Eq)]
pub struct AccountMeta {
    pub address: Address,
    pub is_signer: bool,
    pub is_writable: bool,
}

impl View for AccountMeta {
    type V = (Seq<u8>, bool, bool);

    open spec fn view(&self) -> (Seq<u8>, bool, bool) {
        (self.address@, self.is_signer, self.is_writable)
    }
}

/// An unsigned instruction: program, ordered accounts, opaque data.
#[derive(Clone, Debug, PartialEq, Eq)]
pub struct Instruction {
    pub program_id: Address,
    pub accounts: Vec<AccountMeta>,
    pub data: Vec<u8>,
}

/// Program id, the accounts' (address, signer, writable) triples in order, and data.
pub type InstructionModel = (Seq<u8>, Seq<(Seq<u8>, bool, bool)>, Seq<u8>);

impl View for Instruction {
    type V = InstructionModel;

    open spec fn view(&self) -> InstructionModel {
        (self.program_id@, self.accounts@.map_values(|m: AccountMeta| m@), self.data@)
    }
}

/// What the native transfer instruction holds.
pub open spec fn native_transfer_model(
    from: Seq<u8>,
    to: Seq<u8>,
    lamports: u64,
) -> InstructionModel {
    (
        system_program_id(),
        seq![(from, true, true), (to, false, true)],
        seq![2u8, 0, 0, 0] + u64_le(lamports),
    )
}

/// What the token program's InitializeMint instruction holds (no freeze authority).
pub open spec fn initialize_mint_model(
    mint: Seq<u8>,
    authority: Seq<u8>,
    decimals: u8,
) -> InstructionModel {
    (
        token_program_id(),
        seq![(mint, false, true), (rent_sysvar_id(), false, false)],
        seq![0u8, decimals] + authority + seq![0u8],
    )
}

/// What the token program's MintTo instruction holds (single authority).
pub open spec fn mint_to_model(
    mint: Seq<u8>,
    account: Seq<u8>,
    authority: Seq<u8>,
    amount: u64,
) -> InstructionModel {
    (
        token_program_id(),
        seq![(mint, false, true), (account, false, true), (authority, true, false)],
        seq![7u8] + u64_le(amount),
    )
}

/// What the token program's Transfer instruction holds (single authority).
pub open spec fn token_transfer_model(
    source: Seq<u8>,
    destination: Seq<u8>,
    authority: Seq<u8>,
    amount: u64,
) -> InstructionModel {
    (
        token_program_id(),
        seq![(source, false, true), (destination, false, true), (authority, true, false)],
        seq![3u8] + u64_le(amount),
    )
}

/// Relies on `system_instruction::transfer`: the system program, the funding
/// account as writable signer, the recipient as writable, and the bincode of
/// `SystemInstruction::Transfer` (variant 2 as a little-endian u32, then the
/// lamports as a little-endian u64).
#[verifier::external_body]
fn system_transfer(from: &Address, to: &Address, lamports: u64) -> (r: Instruction)
    ensures
        r@ == native_transfer_model(from@, to@, lamports),
{
    let pk = Pubkey::new_from_array;
    let ix = solana_sdk::system_instruction::transfer(&pk(from.bytes), &pk(to.bytes), lamports);
    let accounts = ix.accounts.iter().map(|m| AccountMeta {
        address: Address { bytes: m.pubkey.to_bytes() },
        is_signer: m.is_signer,
        is_writable: m.is_writable,
    });
    let program_id = Address { bytes: ix.program_id.to_bytes() };
    Instruction { program_id, accounts: accounts.collect(), data: ix.data }
}

/// Relies on `spl_token::instruction::initialize_mint` with `spl_token::id()`
/// and no freeze authority: it fails only for another program id, so it
/// succeeds here. Accounts are the mint (writable) and the rent sysvar; data
/// is tag 0, decimals, the authority and a 0 byte for the absent freeze
/// authority.
#[verifier::external_body]
fn spl_initialize_mint(mint: &Address, authority: &Address, decimals: u8) -> (r: Result<
    Instruction,
    ProgramError,
>)
    ensures
        r is Ok,
        r->Ok_0@ == initialize_mint_model(mint@, authority@, decimals),
{
    let pk = Pubkey::new_from_array;
    let ix = spl_token::instruction::initialize_mint(
        &spl_token::id(), &pk(mint.bytes), &pk(authority.bytes), None, decimals,
    )?;
    let accounts = ix.accounts.iter().map(|m| AccountMeta {
        address: Address { bytes: m.pubkey.to_bytes() },
        is_signer: m.is_signer,
        is_writable: m.is_writable,
    });
    let program_id = Address { bytes: ix.program_id.to_bytes() };
    Ok(Instruction { program_id, accounts: accounts.collect(), data: ix.data })
}

/// Relies on `spl_token::instruction::mint_to` with `spl_token::id()` and no
/// multisig signers: it succeeds; accounts are the mint and the destination
/// (writable) and the authority (read-only signer); data is tag 7 and the
/// amount as a little-endian u64.
#[verifier::external_body]
fn spl_mint_to(mint: &Address, account: &Address, authority: &Address, amount: u64) -> (r: Result<
    Instruction,
    ProgramError,
>)
    ensures
        r is Ok,
        r->Ok_0@ == mint_to_model(mint@, account@, authority@, amount),
{
    let pk = Pubkey::new_from_array;
    let ix = spl_token::instruction::mint_to(
        &spl_token::id(), &pk(mint.bytes), &pk(account.bytes), &pk(authority.bytes), &[], amount,
    )?;
    let accounts = ix.accounts.iter().map(|m| AccountMeta {
        address: Address { bytes: m.pubkey.to_bytes() },
        is_signer: m.is_signer,
        is_writable: m.is_writable,
    });
    let program_id = Address { bytes: ix.program_id.to_bytes() };
    Ok(Instruction { program_id, accounts: accounts.collect(), data: ix.data })
}

/// Relies on `spl_token::instruction::transfer` with `spl_token::id()` and no
/// multisig signers: it succeeds; accounts are the source and destination
/// (writable) and the authority (read-only signer); data is tag 3 and the
/// amount as a little-endian u64.
#[verifier::external_body]
fn spl_transfer(
    source: &Address,
    destination: &Address,
    authority: &Address,
    amount: u64,
) -> (r: Result<Instruction, ProgramError>)
    ensures
        r is Ok,
        r->Ok_0@ == token_transfer_model(source@, destination@, authority@, amount),
{
    let pk = Pubkey::new_from_array;
    let ix = spl_token::instruction::transfer(
        &spl_token::id(), &pk(source.bytes), &pk(destination.bytes),
        &pk(authority.bytes), &[], amount,
    )?;
    let accounts = ix.accounts.iter().map(|m| AccountMeta {
        address: Address { bytes: m.pubkey.to_bytes() },
        is_signer: m.is_signer,
        is_writable: m.is_writable,
    });
    let program_id = Address { bytes: ix.program_id.to_bytes() };
    Ok(Instruction { program_id, accounts: accounts.collect(), data: ix.data })
}

/// Relies on `get_associated_token_address`: the program-derived address of
/// the owner's account for the mint; it depends on the two addresses alone.
#[verifier::external_body]
fn ata_address(owner: &Address, mint: &Address) -> (r: Address)
    ensures
        r@ == associated_address(owner@, mint@),
{
    let ata = spl_associated_token_account_client::address::get_associated_token_address(
        &Pubkey::new_from_array(owner.bytes),
        &Pubkey::new_from_array(mint.bytes),
    );
    Address { bytes: ata.to_bytes() }
}

/// The associated token account of `owner` for `mint`.
pub fn derive_associated_address(owner: &Address, mint: &Address) -> (r: Address)
    ensures
        r@ == associated_address(owner@, mint@),
{
    ata_address(owner, mint)
}

/// Same owner and mint give the same associated address.
pub proof fn lemma_associated_address_deterministic(
    o1: Seq<u8>,
    m1: Seq<u8>,
    o2: Seq<u8>,
    m2: Seq<u8>,
)
    requires
        o1 == o2,
        m1 == m2,
    ensures
        associated_address(o1, m1) == associated_address(o2, m2),
{
}

/// A native transfer of `lamports` from `sender` to `recipient`.
pub fn native_transfer(sender: &Address, recipient: &Address, lamports: u64) -> (r: Instruction)
    ensures
        r@ == native_transfer_model(sender@, recipient@, lamports),
{
    system_transfer(sender, recipient, lamports)
}

/// Turns a builder's refusal into this library's error.
fn built(r: Result<Instruction, ProgramError>) -> (out: Result<Instruction, EngineError>)
    ensures
        r is Ok ==> out == Ok::<Instruction, EngineError>(r->Ok_0),
        r is Err ==> out is Err && out->Err_0 is InstructionConstructionFailed,
{
    match r {
        Ok(ix) => Ok(ix),
        Err(e) => Err(EngineError::InstructionConstructionFailed(e.to_string())),
    }
}

/// Initializes `mint` with `mint_authority` and `decimals`, without a freeze authority.
pub fn initialize_mint(mint: &Address, mint_authority: &Address, decimals: u8) -> (r: Result<
    Instruction,
    EngineError,
>)
    ensures
        r is Ok,
        r->Ok_0@ == initialize_mint_model(mint@, mint_authority@, decimals),
{
    built(spl_initialize_mint(mint, mint_authority, decimals))
}

/// Mints `amount` to the associated account of `destination_owner` for `mint`.
pub fn mint_to(
    mint: &Address,
    destination_owner: &Address,
    mint_authority: &Address,
    amount: u64,
) -> (r: Result<Instruction, EngineError>)
    ensures
        r is Ok,
        r->Ok_0@ == mint_to_model(
            mint@,
            associated_address(destination_owner@, mint@),
            mint_authority@,
            amount,
        ),
{
    let ata = derive_associated_address(destination_owner, mint);
    built(spl_mint_to(mint, &ata, mint_authority, amount))
}

/// Transfers `amount` of `mint` from the associated account of `source_owner`
/// to that of `destination_owner`, signed by `source_owner`.
pub fn token_transfer(
    mint: &Address,
    destination_owner: &Address,
    source_owner: &Address,
    amount: u64,
) -> (r: Result<Instruction, EngineError>)
    ensures
        r is Ok,
        r->Ok_0@ == token_transfer_model(
            associated_address(source_owner@, mint@),
            associated_address(destination_owner@, mint@),
            source_owner@,
            amount,
        ),
{
    let source = derive_associated_address(source_owner, mint);
    let destination = derive_associated_address(destination_owner, mint);
    built(spl_transfer(&source, &destination, source_owner, amount))
}

} // verus!
