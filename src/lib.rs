/// Base58 addresses and the 32-byte `Address` type.
pub mod codec;
/// Request fields, the error taxonomy and the response envelope.
pub mod error;
/// Ed25519 keypairs, signing and verification.
pub mod signing;
/// Instructions, their byte layouts, and the builders of the four kinds.
pub mod instruction;
/// Field validation in front of each builder, and rendering for callers.
pub mod requests;
/// Laws of amount and decimals validation.
pub mod laws;
