use vstd::prelude::*;
use vstd::string::StringSliceAdditionalSpecFns;

use crate::codec::{
    address_of_text, base58_decoding, base58_encoding, bs58_decode, bs58_encode, to_array, Address,
};
use crate::error::{EngineError, Field};
use solana_sdk::signature::{Keypair as SdkKeypair, Signature as SdkSignature, Signer};

verus! {

/// The Ed25519 public key that a 32-byte seed derives.
pub uninterp spec fn ed25519_public_of(seed: Seq<u8>) -> Seq<u8>;

/// The Ed25519 signature of a message under the key a 32-byte seed derives.
pub uninterp spec fn ed25519_signature(seed: Seq<u8>, message: Seq<u8>) -> Seq<u8>;

/// Whether a 64-byte signature is a valid (strict) Ed25519 signature of the
/// message by the 32-byte public key.
pub uninterp spec fn ed25519_verifies(
    public: Seq<u8>,
    message: Seq<u8>,
    signature: Seq<u8>,
) -> bool;

/// Relies on `Keypair::new_from_array` and `Signer::pubkey`: the public key
/// derived from the seed.
#[verifier::external_body]
fn derived_public(seed: &[u8; 32]) -> (r: [u8; 32])
    ensures
        r@ == ed25519_public_of(seed@),
{
    SdkKeypair::new_from_array(*seed).pubkey().to_bytes()
}

/// Relies on `Keypair::try_from(&[u8])`, which `Keypair::from_bytes` calls:
/// 64 bytes are accepted exactly when the trailing 32 are the public key
/// derived from the leading 32.
#[verifier::external_body]
fn keypair_bytes_accepted(bytes: &[u8; 64]) -> (r: bool)
    ensures
        r == (bytes@.subrange(32, 64) == ed25519_public_of(bytes@.subrange(0, 32))),
{
    SdkKeypair::try_from(&bytes[..]).is_ok()
}

/// Relies on `Keypair::new` and `Keypair::to_bytes`: a fresh random seed
/// followed by the public key derived from it.
#[verifier::external_body]
fn fresh_keypair_bytes() -> (r: [u8; 64])
    ensures
        r@.subrange(32, 64) == ed25519_public_of(r@.subrange(0, 32)),
{
    SdkKeypair::new().to_bytes()
}

/// Relies on `Signer::sign_message` of the keypair built by
/// `Keypair::new_from_array`. An Ed25519 signature made with a seed verifies
/// against the public key derived from that seed.
#[verifier::external_body]
fn ed25519_sign(seed: &[u8; 32], message: &[u8]) -> (r: [u8; 64])
    ensures
        r@ == ed25519_signature(seed@, message@),
        ed25519_verifies(ed25519_public_of(seed@), message@, r@),
{
    SdkKeypair::new_from_array(*seed).sign_message(message).into()
}

/// Relies on `Signature::verify` (strict Ed25519 verification); it never fails,
/// a bad key or signature gives `false`.
#[verifier::external_body]
fn ed25519_verify(public: &[u8; 32], message: &[u8], signature: &[u8; 64]) -> (r: bool)
    ensures
        r == ed25519_verifies(public@, message@, signature@),
{
    SdkSignature::from(*signature).verify(&public[..], message)
}

/// Whether 64 bytes hold a seed followed by the public key it derives.
pub open spec fn keypair_consistent(b: Seq<u8>) -> bool {
    b.subrange(32, 64) == ed25519_public_of(b.subrange(0, 32))
}

/// The 64 keypair bytes a base58 secret-key text stands for, or the error it gives.
pub open spec fn secret_key_outcome(s: Seq<char>) -> Result<Seq<u8>, EngineError> {
    match base58_decoding(s) {
        Some(b) => if b.len() != 64 {
            Err(EngineError::InvalidSecretKey)
        } else if keypair_consistent(b) {
            Ok(b)
        } else {
            Err(EngineError::MalformedKeypair)
        },
        None => Err(EngineError::InvalidSecretKey),
    }
}

/// The 64 signature bytes a base58 text stands for, or the error it gives.
pub open spec fn signature_outcome(s: Seq<char>) -> Result<Seq<u8>, EngineError> {
    match base58_decoding(s) {
        Some(b) => if b.len() == 64 {
            Ok(b)
        } else {
            Err(EngineError::InvalidSignatureLength)
        },
        None => Err(EngineError::InvalidSignatureEncoding),
    }
}

/// What verifying a message against a base58 signature and a base58 public
/// key reports: the public key is checked first, then the signature.
pub open spec fn verify_outcome(
    message: Seq<u8>,
    signature: Seq<char>,
    pubkey: Seq<char>,
) -> Result<bool, EngineError> {
    match address_of_text(pubkey) {
        None => Err(EngineError::InvalidAddress(Field::Pubkey)),
        Some(pk) => match signature_outcome(signature) {
            Ok(sig) => Ok(ed25519_verifies(pk, message, sig)),
            Err(e) => Err(e),
        },
    }
}

/// An Ed25519 keypair: a 32-byte seed and the public address derived from it.
#[derive(Clone, Copy, Debug)]
pub struct Keypair {
    pub secret: [u8; 32],
    pub public: Address,
}

impl Keypair {
    /// The public half is the key derived from the seed.
    pub open spec fn wf(&self) -> bool {
        self.public@ == ed25519_public_of(self.secret@)
    }

    /// The 64-byte wire form: seed, then public key.
    pub open spec fn bytes(&self) -> Seq<u8> {
        self.secret@ + self.public@
    }

    /// Splits 64 wire bytes into seed and public key.
    pub fn from_bytes(bytes: &[u8; 64]) -> (r: Keypair)
        ensures
            r.bytes() == bytes@,
            r.secret@ == bytes@.subrange(0, 32),
            r.public@ == bytes@.subrange(32, 64),
    {
        let mut secret = [0u8; 32];
        let mut public = [0u8; 32];
        let mut i: usize = 0;
        while i < 32
            invariant
                i <= 32,
                forall|j: int| 0 <= j < i ==> secret@[j] == bytes@[j],
                forall|j: int| 0 <= j < i ==> public@[j] == bytes@[j + 32],
            decreases 32 - i,
        {
            secret[i] = bytes[i];
            public[i] = bytes[i + 32];
            i = i + 1;
        }
        let kp = Keypair { secret, public: Address { bytes: public } };
        assert(kp.secret@ =~= bytes@.subrange(0, 32));
        assert(kp.public@ =~= bytes@.subrange(32, 64));
        assert(kp.bytes() =~= bytes@);
        kp
    }

    /// The base58 text of the 64-byte wire form.
    pub fn to_text(&self) -> (r: String)
        ensures
            r@ == base58_encoding(self.bytes()),
            base58_decoding(r@) == Some(self.bytes()),
    {
        let mut v: Vec<u8> = Vec::new();
        let mut i: usize = 0;
        while i < 64
            invariant
                i <= 64,
                v@ =~= self.bytes().subrange(0, i as int),
            decreases 64 - i,
        {
            if i < 32 {
                v.push(self.secret[i]);
            } else {
                v.push(self.public.bytes[i - 32]);
            }
            i = i + 1;
        }
        assert(v@ =~= self.bytes());
        bs58_encode(v.as_slice())
    }
}

/// Decodes a base58 secret key of 64 bytes into a keypair; the trailing 32
/// bytes must be the public key the leading 32 derive.
pub fn decode_secret_key(s: &str) -> (r: Result<Keypair, EngineError>)
    ensures
        match r {
            Ok(kp) => {
                &&& secret_key_outcome(s@) == Ok::<Seq<u8>, EngineError>(kp.bytes())
                &&& kp.wf()
                &&& base58_encoding(kp.bytes()) == s@
            },
            Err(e) => secret_key_outcome(s@) == Err::<Seq<u8>, EngineError>(e),
        },
{
    let decoded = match bs58_decode(s) {
        Some(v) => v,
        None => return Err(EngineError::InvalidSecretKey),
    };
    if decoded.len() != 64 {
        return Err(EngineError::InvalidSecretKey);
    }
    let bytes: [u8; 64] = to_array(&decoded);
    if !keypair_bytes_accepted(&bytes) {
        return Err(EngineError::MalformedKeypair);
    }
    Ok(Keypair::from_bytes(&bytes))
}

/// A 64-byte Ed25519 signature.
#[derive(Clone, Copy, Debug)]
pub struct Signature {
    pub bytes: [u8; 64],
}

impl View for Signature {
    type V = Seq<u8>;

    open spec fn view(&self) -> Seq<u8> {
        self.bytes@
    }
}

impl Signature {
    /// Decodes a base58 signature; it must be exactly 64 bytes.
    pub fn from_text(s: &str) -> (r: Result<Signature, EngineError>)
        ensures
            match r {
                Ok(sig) => {
                    &&& signature_outcome(s@) == Ok::<Seq<u8>, EngineError>(sig@)
                    &&& base58_encoding(sig@) == s@
                },
                Err(e) => signature_outcome(s@) == Err::<Seq<u8>, EngineError>(e),
            },
    {
        match bs58_decode(s) {
            Some(v) => if v.len() == 64 {
                Ok(Signature { bytes: to_array(&v) })
            } else {
                Err(EngineError::InvalidSignatureLength)
            },
            None => Err(EngineError::InvalidSignatureEncoding),
        }
    }

    /// The base58 text of the signature.
    pub fn to_text(&self) -> (r: String)
        ensures
            r@ == base58_encoding(self@),
            signature_outcome(r@) == Ok::<Seq<u8>, EngineError>(self@),
    {
        bs58_encode(self.bytes.as_slice())
    }
}

/// Signs a message with a keypair; the signature verifies against its public key.
pub fn sign(keypair: &Keypair, message: &[u8]) -> (r: Signature)
    requires
        keypair.wf(),
    ensures
        r@ == ed25519_signature(keypair.secret@, message@),
        ed25519_verifies(keypair.public@, message@, r@),
{
    Signature { bytes: ed25519_sign(&keypair.secret, message) }
}

/// Whether the signature is valid for the message under the public key.
pub fn verify(public: &Address, message: &[u8], signature: &Signature) -> (r: bool)
    ensures
        r == ed25519_verifies(public@, message@, signature@),
{
    ed25519_verify(&public.bytes, message, &signature.bytes)
}

/// A freshly generated keypair as base58 texts.
#[derive(Clone, Debug, PartialEq, Eq)]
pub struct KeypairData {
    pub pubkey: String,
    pub secret: String,
}

/// Generates a keypair from the operating system's random source. The secret
/// text decodes to a consistent 64-byte keypair whose public half is `pubkey`.
pub fn generate_keypair() -> (r: KeypairData)
    ensures
        secret_key_outcome(r.secret@) is Ok,
        address_of_text(r.pubkey@) == Some(secret_key_outcome(r.secret@)->Ok_0.subrange(32, 64)),
{
    let bytes = fresh_keypair_bytes();
    let kp = Keypair::from_bytes(&bytes);
    let secret_text = kp.to_text();
    KeypairData { pubkey: kp.public.to_text(), secret: secret_text }
}

/// A signed message: base58 signature, base58 public key and the message.
#[derive(Clone, Debug, PartialEq, Eq)]
pub struct SignedMessage {
    pub signature: String,
    pub pubkey: String,
    pub message: String,
}

/// Signs the UTF-8 bytes of `message` with the base58 secret key `secret`.
/// Empty fields are refused first (message, then secret), then the key is
/// decoded. The signature it returns verifies under the returned public key.
pub fn sign_message(message: &str, secret: &str) -> (r: Result<SignedMessage, EngineError>)
    ensures
        message@.len() == 0 ==> r == Err::<SignedMessage, EngineError>(
            EngineError::EmptyField(Field::Message),
        ),
        message@.len() != 0 && secret@.len() == 0 ==> r == Err::<SignedMessage, EngineError>(
            EngineError::EmptyField(Field::Secret),
        ),
        message@.len() != 0 && secret@.len() != 0 ==> match r {
            Ok(out) => {
                &&& secret_key_outcome(secret@) is Ok
                &&& out.signature@ == base58_encoding(
                    ed25519_signature(
                        secret_key_outcome(secret@)->Ok_0.subrange(0, 32),
                        message.spec_bytes(),
                    ),
                )
                &&& out.pubkey@ == base58_encoding(
                    secret_key_outcome(secret@)->Ok_0.subrange(32, 64),
                )
                &&& out.message@ == message@
                &&& verify_outcome(message.spec_bytes(), out.signature@, out.pubkey@) == Ok::<
                    bool,
                    EngineError,
                >(true)
            },
            Err(e) => secret_key_outcome(secret@) == Err::<Seq<u8>, EngineError>(e),
        },
{
    if message.is_empty() {
        return Err(EngineError::EmptyField(Field::Message));
    }
    if secret.is_empty() {
        return Err(EngineError::EmptyField(Field::Secret));
    }
    let keypair = decode_secret_key(secret)?;
    assert(keypair.bytes().subrange(0, 32) =~= keypair.secret@);
    assert(keypair.bytes().subrange(32, 64) =~= keypair.public@);
    let signature = sign(&keypair, message.as_bytes());
    let pubkey = derived_public(&keypair.secret);
    let pubkey_text = Address { bytes: pubkey }.to_text();
    let signature_text = signature.to_text();
    Ok(
        SignedMessage {
            signature: signature_text,
            pubkey: pubkey_text,
            message: message.to_owned(),
        },
    )
}

/// The outcome of a verification request.
#[derive(Clone, Debug, PartialEq, Eq)]
pub struct VerifiedMessage {
    pub valid: bool,
    pub message: String,
    pub pubkey: String,
}

/// Verifies a base58 signature of the UTF-8 bytes of `message` under the
/// base58 public key `pubkey`. Malformed texts are errors; a well-formed but
/// wrong signature is reported as `valid == false`.
pub fn verify_message(message: &str, signature: &str, pubkey: &str) -> (r: Result<
    VerifiedMessage,
    EngineError,
>)
    ensures
        match r {
            Ok(out) => verify_outcome(message.spec_bytes(), signature@, pubkey@) == Ok::<
                bool,
                EngineError,
            >(out.valid) && out.message@ == message@ && out.pubkey@ == pubkey@,
            Err(e) => verify_outcome(message.spec_bytes(), signature@, pubkey@) == Err::<
                bool,
                EngineError,
            >(e),
        },
{
    let public = match Address::from_text(pubkey) {
        Some(a) => a,
        None => return Err(EngineError::InvalidAddress(Field::Pubkey)),
    };
    let sig = Signature::from_text(signature)?;
    let valid = verify(&public, message.as_bytes(), &sig);
    Ok(VerifiedMessage { valid, message: message.to_owned(), pubkey: pubkey.to_owned() })
}

} // verus!
