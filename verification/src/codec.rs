//! The two text codecs the protocol uses — base-58 for addresses and
//! secrets, base-64 for instruction payloads and signatures — and address
//! parsing on top of them.

use vstd::prelude::*;

verus! {

/// What `bs58::encode` renders for a byte sequence: its base-58 text form.
pub uninterp spec fn base58_of(b: Seq<u8>) -> Seq<char>;

/// What `bs58::decode` yields for a text: the decoded bytes, or `None` when
/// the text holds a character outside the base-58 alphabet.
pub uninterp spec fn base58_decoded(s: Seq<char>) -> Option<Seq<u8>>;

/// What base64's standard engine renders for a byte sequence.
pub uninterp spec fn base64_of(b: Seq<u8>) -> Seq<char>;

/// What base64's standard engine decodes a text to, or `None` when the text
/// is not a canonical base-64 encoding.
pub uninterp spec fn base64_decoded(s: Seq<char>) -> Option<Seq<u8>>;

/// Whether a text is a well-formed address: base-58, decoding to exactly
/// 32 bytes.
pub open spec fn address_accepts(s: Seq<char>) -> bool {
    base58_decoded(s) matches Some(b) && b.len() == 32
}

/// The 32 address bytes of a well-formed address text.
pub open spec fn address_bytes_of(s: Seq<char>) -> Seq<u8> {
    base58_decoded(s)->Some_0
}

/// Relies on `bs58::encode`: it renders the canonical base-58 form of the
/// bytes, decoding that form yields the bytes back, and a non-empty input
/// renders as non-empty text.
#[verifier::external_body]
pub(crate) fn base58_encode(b: &Vec<u8>) -> (r: String)
    ensures
        r@ == base58_of(b@),
        base58_decoded(r@) == Some(b@),
        b@.len() > 0 ==> r@.len() > 0,
{
    bs58::encode(b.as_slice()).into_string()
}

/// Relies on `bs58::decode`: it succeeds exactly on base-58 text, and
/// returns the decoded bytes.
#[verifier::external_body]
pub(crate) fn base58_decode(s: &str) -> (r: Result<Vec<u8>, String>)
    ensures
        r is Ok <==> base58_decoded(s@) is Some,
        r matches Ok(b) ==> base58_decoded(s@) == Some(b@),
{
    match bs58::decode(s).into_vec() {
        Ok(v) => Ok(v),
        Err(e) => Err(e.to_string()),
    }
}

/// Relies on `base64::engine::general_purpose::STANDARD.encode`: it renders
/// the canonical padded base-64 form of the bytes, decoding that form yields
/// the bytes back, and a non-empty input renders as non-empty text.
#[verifier::external_body]
pub(crate) fn base64_encode(b: &Vec<u8>) -> (r: String)
    ensures
        r@ == base64_of(b@),
        base64_decoded(r@) == Some(b@),
        b@.len() > 0 ==> r@.len() > 0,
{
    base64::Engine::encode(&base64::engine::general_purpose::STANDARD, b.as_slice())
}

/// Relies on `base64::engine::general_purpose::STANDARD.decode`: the
/// standard engine requires canonical padding and rejects trailing bits, so
/// it accepts exactly the texts its encoder produces, and re-encoding a
/// decoded result reproduces the text.
#[verifier::external_body]
pub(crate) fn base64_decode(s: &str) -> (r: Result<Vec<u8>, String>)
    ensures
        r is Ok <==> base64_decoded(s@) is Some,
        r matches Ok(b) ==> base64_decoded(s@) == Some(b@) && base64_of(b@) == s@,
{
    match base64::Engine::decode(&base64::engine::general_purpose::STANDARD, s) {
        Ok(v) => Ok(v),
        Err(e) => Err(e.to_string()),
    }
}

/// Parses a base-58 address text into its 32 raw bytes. Succeeds exactly
/// when the text is base-58 and decodes to exactly 32 bytes; the error
/// carries the reason.
pub fn parse_address(s: &str) -> (r: Result<Vec<u8>, String>)
    ensures
        r is Ok <==> address_accepts(s@),
        r matches Ok(b) ==> b@ == address_bytes_of(s@) && b@.len() == 32,
{
    match base58_decode(s) {
        Ok(bytes) => {
            if bytes.len() == 32 {
                Ok(bytes)
            } else {
                Err(String::from_str("address does not decode to 32 bytes"))
            }
        },
        Err(e) => Err(e),
    }
}

/// Copies a byte vector. Response values echo request bytes through this.
pub(crate) fn clone_bytes(v: &Vec<u8>) -> (r: Vec<u8>)
    ensures
        r@ == v@,
{
    let mut r: Vec<u8> = Vec::new();
    let mut i: usize = 0;
    while i < v.len()
        invariant
            0 <= i <= v@.len(),
            r@ == v@.subrange(0, i as int),
        decreases v@.len() - i,
    {
        r.push(v[i]);
        proof {
            assert(v@.subrange(0, i + 1) =~= v@.subrange(0, i as int).push(v@[i as int]));
        }
        i = i + 1;
    }
    proof {
        assert(v@.subrange(0, v@.len() as int) =~= v@);
    }
    r
}

/// Law: a built instruction's base-64 payload round-trips — whatever bytes
/// the payload text decodes to, re-encoding them reproduces the text
/// exactly. The two premises are what every builder ensures of its
/// `instruction_data`.
pub proof fn lemma_base64_round_trip(s: Seq<char>, d: Seq<u8>)
    requires
        s == base64_of(d),
        base64_decoded(s) == Some(d),
    ensures
        forall|d2: Seq<u8>| base64_decoded(s) == Some(d2) ==> base64_of(d2) == s,
{
}

} // verus!
