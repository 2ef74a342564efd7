use vstd::prelude::*;

use crate::codec::{address_of_text, base58_encoding, Address};
use crate::error::{EngineError, Field};
use crate::instruction::{
    associated_address, initialize_mint, initialize_mint_model, mint_to, mint_to_model,
    native_transfer, native_transfer_model, token_transfer, token_transfer_model, Instruction,
    InstructionModel,
};
use base64::Engine;

verus! {

/// What `str::trim` leaves of a text.
pub uninterp spec fn trimmed(s: Seq<char>) -> Seq<char>;

/// The text that base64 (standard alphabet, padded) writes for bytes.
pub uninterp spec fn base64_encoding(b: Seq<u8>) -> Seq<char>;

/// Relies on `str::trim`: the text without leading and trailing whitespace.
#[verifier::external_body]
fn trim<'a>(s: &'a str) -> (r: &'a str)
    ensures
        r@ == trimmed(s@),
{
    s.trim()
}

/// Relies on `base64::engine::general_purpose::STANDARD.encode`.
#[verifier::external_body]
fn base64_encode(b: &[u8]) -> (r: String)
    ensures
        r@ == base64_encoding(b@),
{
    base64::engine::general_purpose::STANDARD.encode(b)
}

/// The address a field's text stands for, or the error naming that field.
pub open spec fn field_address(s: Seq<char>, field: Field) -> Result<Seq<u8>, EngineError> {
    match address_of_text(s) {
        Some(a) => Ok(a),
        None => Err(EngineError::InvalidAddress(field)),
    }
}

/// Decodes the address in a request field.
pub fn parse_address(s: &str, field: Field) -> (r: Result<Address, EngineError>)
    ensures
        match r {
            Ok(a) => field_address(s@, field) == Ok::<Seq<u8>, EngineError>(a@),
            Err(e) => field_address(s@, field) == Err::<Seq<u8>, EngineError>(e),
        },
{
    match Address::from_text(s) {
        Some(a) => Ok(a),
        None => Err(EngineError::InvalidAddress(field)),
    }
}

/// Whether an outcome of a request is the given instruction, or the given error.
pub open spec fn outcome_is(
    r: Result<Instruction, EngineError>,
    o: Result<InstructionModel, EngineError>,
) -> bool {
    match r {
        Ok(ix) => o == Ok::<InstructionModel, EngineError>(ix@),
        Err(e) => o == Err::<InstructionModel, EngineError>(e),
    }
}

/// Native transfer: sender, recipient, then a positive amount.
pub open spec fn send_sol_outcome(sender: Seq<char>, recipient: Seq<char>, amount: u64) -> Result<
    InstructionModel,
    EngineError,
> {
    match field_address(sender, Field::Sender) {
        Err(e) => Err(e),
        Ok(from) => match field_address(recipient, Field::Recipient) {
            Err(e) => Err(e),
            Ok(to) => if amount == 0 {
                Err(EngineError::InvalidAmount(Field::Amount))
            } else {
                Ok(native_transfer_model(from, to, amount))
            },
        },
    }
}

/// Builds a native transfer of `amount` lamports from `sender` to `recipient`.
pub fn send_sol(sender: &str, recipient: &str, amount: u64) -> (r: Result<Instruction, EngineError>)
    ensures
        outcome_is(r, send_sol_outcome(sender@, recipient@, amount)),
{
    let from = parse_address(sender, Field::Sender)?;
    let to = parse_address(recipient, Field::Recipient)?;
    if amount == 0 {
        return Err(EngineError::InvalidAmount(Field::Amount));
    }
    Ok(native_transfer(&from, &to, amount))
}

/// Mint creation: both fields present, decimals at most 9, mint, then authority.
pub open spec fn create_token_outcome(
    mint_authority: Seq<char>,
    mint: Seq<char>,
    decimals: u8,
) -> Result<InstructionModel, EngineError> {
    if trimmed(mint_authority).len() == 0 {
        Err(EngineError::EmptyField(Field::MintAuthority))
    } else if trimmed(mint).len() == 0 {
        Err(EngineError::EmptyField(Field::Mint))
    } else if decimals > 9 {
        Err(EngineError::InvalidDecimals)
    } else {
        match field_address(mint, Field::Mint) {
            Err(e) => Err(e),
            Ok(m) => match field_address(mint_authority, Field::MintAuthority) {
                Err(e) => Err(e),
                Ok(a) => Ok(initialize_mint_model(m, a, decimals)),
            },
        }
    }
}

/// Builds the instruction that initializes `mint` with `mint_authority` and `decimals`.
pub fn create_token(mint_authority: &str, mint: &str, decimals: u8) -> (r: Result<
    Instruction,
    EngineError,
>)
    ensures
        outcome_is(r, create_token_outcome(mint_authority@, mint@, decimals)),
{
    if trim(mint_authority).is_empty() {
        return Err(EngineError::EmptyField(Field::MintAuthority));
    }
    if trim(mint).is_empty() {
        return Err(EngineError::EmptyField(Field::Mint));
    }
    if decimals > 9 {
        return Err(EngineError::InvalidDecimals);
    }
    let mint_address = parse_address(mint, Field::Mint)?;
    let authority = parse_address(mint_authority, Field::MintAuthority)?;
    initialize_mint(&mint_address, &authority, decimals)
}

/// Minting: a positive amount, then mint, destination and authority.
pub open spec fn mint_token_outcome(
    mint: Seq<char>,
    destination: Seq<char>,
    authority: Seq<char>,
    amount: u64,
) -> Result<InstructionModel, EngineError> {
    if amount == 0 {
        Err(EngineError::InvalidAmount(Field::Amount))
    } else {
        match field_address(mint, Field::Mint) {
            Err(e) => Err(e),
            Ok(m) => match field_address(destination, Field::Destination) {
                Err(e) => Err(e),
                Ok(d) => match field_address(authority, Field::Authority) {
                    Err(e) => Err(e),
                    Ok(a) => Ok(mint_to_model(m, associated_address(d, m), a, amount)),
                },
            },
        }
    }
}

/// Builds the instruction that mints `amount` of `mint` to the associated
/// account of `destination`, signed by `authority`.
pub fn mint_token(mint: &str, destination: &str, authority: &str, amount: u64) -> (r: Result<
    Instruction,
    EngineError,
>)
    ensures
        outcome_is(r, mint_token_outcome(mint@, destination@, authority@, amount)),
{
    if amount == 0 {
        return Err(EngineError::InvalidAmount(Field::Amount));
    }
    let mint_address = parse_address(mint, Field::Mint)?;
    let owner = parse_address(destination, Field::Destination)?;
    let mint_authority = parse_address(authority, Field::Authority)?;
    mint_to(&mint_address, &owner, &mint_authority, amount)
}

/// Token transfer: a positive amount, then mint, destination and owner.
pub open spec fn send_token_outcome(
    mint: Seq<char>,
    destination: Seq<char>,
    owner: Seq<char>,
    amount: u64,
) -> Result<InstructionModel, EngineError> {
    if amount == 0 {
        Err(EngineError::InvalidAmount(Field::Amount))
    } else {
        match field_address(mint, Field::Mint) {
            Err(e) => Err(e),
            Ok(m) => match field_address(destination, Field::Destination) {
                Err(e) => Err(e),
                Ok(d) => match field_address(owner, Field::Owner) {
                    Err(e) => Err(e),
                    Ok(o) => Ok(
                        token_transfer_model(
                            associated_address(o, m),
                            associated_address(d, m),
                            o,
                            amount,
                        ),
                    ),
                },
            },
        }
    }
}

/// Builds the instruction that moves `amount` of `mint` from the associated
/// account of `owner` to that of `destination`, signed by `owner`.
pub fn send_token(mint: &str, destination: &str, owner: &str, amount: u64) -> (r: Result<
    Instruction,
    EngineError,
>)
    ensures
        outcome_is(r, send_token_outcome(mint@, destination@, owner@, amount)),
{
    if amount == 0 {
        return Err(EngineError::InvalidAmount(Field::Amount));
    }
    let mint_address = parse_address(mint, Field::Mint)?;
    let destination_owner = parse_address(destination, Field::Destination)?;
    let source_owner = parse_address(owner, Field::Owner)?;
    token_transfer(&mint_address, &destination_owner, &source_owner, amount)
}

/// One account of an instruction as the caller sees it.
#[derive(Clone, Debug, PartialEq, Eq)]
pub struct AccountOutput {
    pub pubkey: String,
    pub is_signer: bool,
    pub is_writable: bool,
}

/// An instruction as the caller sees it: base58 addresses, base64 data.
#[derive(Clone, Debug, PartialEq, Eq)]
pub struct InstructionOutput {
    pub program_id: String,
    pub accounts: Vec<AccountOutput>,
    pub instruction_data: String,
}

/// Writes an instruction's addresses in base58 and its data in base64,
/// keeping the accounts and their flags in order.
pub fn render_instruction(ix: &Instruction) -> (r: InstructionOutput)
    ensures
        r.program_id@ == base58_encoding(ix.program_id@),
        r.accounts@.len() == ix.accounts@.len(),
        forall|i: int|
            0 <= i < ix.accounts@.len() ==> {
                &&& (#[trigger] r.accounts@[i]).pubkey@ == base58_encoding(ix.accounts@[i].address@)
                &&& r.accounts@[i].is_signer == ix.accounts@[i].is_signer
                &&& r.accounts@[i].is_writable == ix.accounts@[i].is_writable
            },
        r.instruction_data@ == base64_encoding(ix.data@),
{
    let mut accounts: Vec<AccountOutput> = Vec::new();
    let mut i: usize = 0;
    while i < ix.accounts.len()
        invariant
            i <= ix.accounts@.len(),
            accounts@.len() == i,
            forall|j: int|
                0 <= j < i ==> {
                    &&& (#[trigger] accounts@[j]).pubkey@ == base58_encoding(
                        ix.accounts@[j].address@,
                    )
                    &&& accounts@[j].is_signer == ix.accounts@[j].is_signer
                    &&& accounts@[j].is_writable == ix.accounts@[j].is_writable
                },
        decreases ix.accounts@.len() - i,
    {
        let meta = &ix.accounts[i];
        accounts.push(
            AccountOutput {
                pubkey: meta.address.to_text(),
                is_signer: meta.is_signer,
                is_writable: meta.is_writable,
            },
        );
        i = i + 1;
    }
    InstructionOutput {
        program_id: ix.program_id.to_text(),
        accounts,
        instruction_data: base64_encode(ix.data.as_slice()),
    }
}

} // verus!
