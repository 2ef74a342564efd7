use vstd::prelude::*;

use crate::codec::address_of_text;
use crate::error::{EngineError, Field};
use crate::instruction::InstructionModel;
use crate::requests::{
    create_token_outcome, mint_token_outcome, send_sol_outcome, send_token_outcome, trimmed,
};

verus! {

/// The outcome of a request refused for a zero amount.
pub open spec fn zero_amount() -> Result<InstructionModel, EngineError> {
    Err(EngineError::InvalidAmount(Field::Amount))
}

/// A native transfer between two valid addresses is refused with
/// `InvalidAmount` exactly when the amount is zero; any other amount,
/// `u64::MAX` included, is built.
pub proof fn lemma_send_sol_amount(sender: Seq<char>, recipient: Seq<char>, amount: u64)
    requires
        address_of_text(sender) is Some,
        address_of_text(recipient) is Some,
    ensures
        amount == 0 ==> send_sol_outcome(sender, recipient, amount) == zero_amount(),
        amount >= 1 ==> send_sol_outcome(sender, recipient, amount) is Ok,
{
}

/// Minting zero is refused with `InvalidAmount` whatever the other fields
/// hold; with valid addresses any positive amount is built.
pub proof fn lemma_mint_token_amount(
    mint: Seq<char>,
    destination: Seq<char>,
    authority: Seq<char>,
    amount: u64,
)
    ensures
        amount == 0 ==> mint_token_outcome(mint, destination, authority, amount) == zero_amount(),
        amount >= 1 && address_of_text(mint) is Some && address_of_text(destination) is Some
            && address_of_text(authority) is Some
            ==> mint_token_outcome(mint, destination, authority, amount) is Ok,
{
}

/// A token transfer of zero is refused with `InvalidAmount` whatever the
/// other fields hold; with valid addresses any positive amount is built.
pub proof fn lemma_send_token_amount(
    mint: Seq<char>,
    destination: Seq<char>,
    owner: Seq<char>,
    amount: u64,
)
    ensures
        amount == 0 ==> send_token_outcome(mint, destination, owner, amount) == zero_amount(),
        amount >= 1 && address_of_text(mint) is Some && address_of_text(destination) is Some
            && address_of_text(owner) is Some
            ==> send_token_outcome(mint, destination, owner, amount) is Ok,
{
}

/// With both fields present, decimals up to 9 are accepted (given valid
/// addresses) and anything above 9 is refused with `InvalidDecimals`.
pub proof fn lemma_create_token_decimals(mint_authority: Seq<char>, mint: Seq<char>, decimals: u8)
    requires
        trimmed(mint_authority).len() != 0,
        trimmed(mint).len() != 0,
    ensures
        decimals > 9 ==> create_token_outcome(mint_authority, mint, decimals)
            == Err::<InstructionModel, EngineError>(EngineError::InvalidDecimals),
        decimals <= 9 && address_of_text(mint) is Some && address_of_text(mint_authority) is Some
            ==> create_token_outcome(mint_authority, mint, decimals) is Ok,
{
}

} // verus!
