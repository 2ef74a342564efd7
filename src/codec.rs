use vstd::prelude::*;

verus! {

/// What `bs58::decode` yields for a text: `None` where the text is not base58.
pub uninterp spec fn base58_decoding(s: Seq<char>) -> Option<Seq<u8>>;

/// The text that `bs58::encode` writes for a byte sequence.
pub uninterp spec fn base58_encoding(b: Seq<u8>) -> Seq<char>;

/// Relies on `bs58::decode(..).into_vec()` (Bitcoin alphabet). Base58 maps
/// texts over its alphabet one to one onto byte sequences (leading `1`s
/// stand for leading zero bytes, the rest is the big-endian number), so
/// encoding what a text decodes to gives the text back.
#[verifier::external_body]
pub(crate) fn bs58_decode(s: &str) -> (r: Option<Vec<u8>>)
    ensures
        match r {
            Some(v) => base58_decoding(s@) == Some(v@) && base58_encoding(v@) == s@,
            None => base58_decoding(s@) is None,
        },
{
    bs58::decode(s).into_vec().ok()
}

/// Relies on `bs58::encode(..).into_string()`: the text decodes back to the
/// same bytes.
#[verifier::external_body]
pub(crate) fn bs58_encode(b: &[u8]) -> (r: String)
    ensures
        r@ == base58_encoding(b@),
        base58_decoding(r@) == Some(b@),
{
    bs58::encode(b).into_string()
}

/// A 32-byte account address.
#[derive(Clone, Copy, Debug, PartialEq, Eq)]
pub struct Address {
    pub bytes: [u8; 32],
}

impl View for Address {
    type V = Seq<u8>;

    open spec fn view(&self) -> Seq<u8> {
        self.bytes@
    }
}

/// The address a text stands for: its base58 decoding, when that is 32 bytes.
pub open spec fn address_of_text(s: Seq<char>) -> Option<Seq<u8>> {
    match base58_decoding(s) {
        Some(b) => if b.len() == 32 { Some(b) } else { None },
        None => None,
    }
}

/// Copies a vector of exactly `N` bytes into an array.
pub(crate) fn to_array<const N: usize>(v: &Vec<u8>) -> (r: [u8; N])
    requires
        v@.len() == N,
    ensures
        r@ == v@,
{
    let mut r = [0u8; N];
    let mut i: usize = 0;
    while i < N
        invariant
            v@.len() == N,
            r@.len() == N,
            i <= N,
            forall|j: int| 0 <= j < i ==> r@[j] == v@[j],
        decreases N - i,
    {
        r[i] = v[i];
        i = i + 1;
    }
    assert(r@ =~= v@);
    r
}

impl Address {
    /// Decodes a base58 address; `None` unless the text is base58 of exactly 32 bytes.
    pub fn from_text(s: &str) -> (r: Option<Address>)
        ensures
            match r {
                Some(a) => address_of_text(s@) == Some(a@) && base58_encoding(a@) == s@,
                None => address_of_text(s@) is None,
            },
    {
        match bs58_decode(s) {
            Some(v) => {
                if v.len() == 32 {
                    Some(Address { bytes: to_array(&v) })
                } else {
                    None
                }
            },
            None => None,
        }
    }

    /// The base58 text of the address.
    pub fn to_text(&self) -> (r: String)
        ensures
            r@ == base58_encoding(self@),
            address_of_text(r@) == Some(self@),
    {
        bs58_encode(self.bytes.as_slice())
    }
}

} // verus!
