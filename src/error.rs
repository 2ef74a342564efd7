use vstd::prelude::*;

verus! {

/// The request field that a validation failure concerns.
#[derive(Clone, Copy, Debug, PartialEq, Eq, Structural)]
pub enum Field {
    Sender,
    Recipient,
    Mint,
    MintAuthority,
    Destination,
    Authority,
    Owner,
    Pubkey,
    Secret,
    Message,
    Amount,
}

/// The wire name of each field.
pub open spec fn field_name(f: Field) -> &'static str {
    match f {
        Field::Sender => "sender",
        Field::Recipient => "recipient",
        Field::Mint => "mint",
        Field::MintAuthority => "mintAuthority",
        Field::Destination => "destination",
        Field::Authority => "authority",
        Field::Owner => "owner",
        Field::Pubkey => "pubkey",
        Field::Secret => "secret",
        Field::Message => "message",
        Field::Amount => "amount",
    }
}

impl Field {
    pub fn name(&self) -> (r: &'static str)
        ensures
            r == field_name(*self),
    {
        match self {
            Field::Sender => "sender",
            Field::Recipient => "recipient",
            Field::Mint => "mint",
            Field::MintAuthority => "mintAuthority",
            Field::Destination => "destination",
            Field::Authority => "authority",
            Field::Owner => "owner",
            Field::Pubkey => "pubkey",
            Field::Secret => "secret",
            Field::Message => "message",
                Field::Amount => "amount",
            }
    }
}

/// Why a request was refused. Each request reports its first failure only.
#[derive(Clone, Debug, PartialEq, Eq)]
pub enum EngineError {
    InvalidAddress(Field),
    InvalidSecretKey,
    MalformedKeypair,
    InvalidSignatureEncoding,
    InvalidSignatureLength,
    InvalidAmount(Field),
    InvalidDecimals,
    EmptyField(Field),
    InstructionConstructionFailed(String),
}

/// The prefix of the human-readable text of each error; a field name, or the
/// builder's reason, follows it.
pub open spec fn error_prefix(e: EngineError) -> &'static str {
    match e {
        EngineError::InvalidAddress(_) => "invalid address: ",
        EngineError::InvalidSecretKey => "invalid secret key",
        EngineError::MalformedKeypair => "failed to parse keypair",
        EngineError::InvalidSignatureEncoding => "signature is not valid base58",
        EngineError::InvalidSignatureLength => "signature must be 64 bytes",
        EngineError::InvalidAmount(_) => "invalid amount: ",
        EngineError::InvalidDecimals => "invalid decimal places",
        EngineError::EmptyField(_) => "missing field: ",
        EngineError::InstructionConstructionFailed(_) => "failed to create instruction: ",
    }
}

/// The full text of an error: its prefix, then the field or reason it names.
pub open spec fn error_text(e: EngineError) -> Seq<char> {
    match e {
        EngineError::InvalidAddress(f) => error_prefix(e)@ + field_name(f)@,
        EngineError::InvalidAmount(f) => error_prefix(e)@ + field_name(f)@,
        EngineError::EmptyField(f) => error_prefix(e)@ + field_name(f)@,
        EngineError::InstructionConstructionFailed(reason) => error_prefix(e)@ + reason@,
        _ => error_prefix(e)@,
    }
}

impl EngineError {
    fn prefix(&self) -> (r: &'static str)
        ensures
            r == error_prefix(*self),
    {
        match self {
            EngineError::InvalidAddress(_) => "invalid address: ",
            EngineError::InvalidSecretKey => "invalid secret key",
            EngineError::MalformedKeypair => "failed to parse keypair",
            EngineError::InvalidSignatureEncoding => "signature is not valid base58",
            EngineError::InvalidSignatureLength => "signature must be 64 bytes",
            EngineError::InvalidAmount(_) => "invalid amount: ",
            EngineError::InvalidDecimals => "invalid decimal places",
            EngineError::EmptyField(_) => "missing field: ",
            EngineError::InstructionConstructionFailed(_) => "failed to create instruction: ",
        }
    }

    /// The human-readable message shown to the caller.
    pub fn message(&self) -> (r: String)
        ensures
            r@ == error_text(*self),
    {
        let mut text = String::from_str(self.prefix());
        match self {
            EngineError::InvalidAddress(f) => text.append(f.name()),
            EngineError::InvalidAmount(f) => text.append(f.name()),
            EngineError::EmptyField(f) => text.append(f.name()),
            EngineError::InstructionConstructionFailed(reason) => text.append(reason.as_str()),
            _ => {},
        }
        text
    }
}

/// The envelope every operation's outcome is shaped into.
pub enum ApiResponse<T> {
    Success { success: bool, data: T },
    Error { success: bool, error: String },
}

impl<T> ApiResponse<T> {
    /// `Ok` becomes a success envelope holding the value; an error becomes an
    /// error envelope holding its message.
    pub fn from_result(r: Result<T, EngineError>) -> (out: ApiResponse<T>)
        ensures
            match r {
                Ok(v) => out == (ApiResponse::Success { success: true, data: v }),
                Err(e) => match out {
                    ApiResponse::Error { success, error } => !success && error@ == error_text(e),
                    _ => false,
                },
            },
    {
        match r {
            Ok(v) => ApiResponse::Success { success: true, data: v },
            Err(e) => ApiResponse::Error { success: false, error: e.message() },
        }
    }
}

} // verus!
