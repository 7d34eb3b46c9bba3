use vstd::prelude::*;

verus! {

/// The failure kinds every operation reports. A bad request is always
/// answered with one of these values, never with a panic.
///
/// `InvalidInput` covers malformed, missing or wrong-length caller data;
/// the decode variants carry the codec's own message; `TokenError` carries
/// a rejection from the token-instruction constructor; `InternalError` and
/// `SolanaError` stand for unexpected collaborator failures.
#[derive(Debug)]
pub enum ServerError {
    InvalidInput(String),
    SolanaError,
    TokenError(String),
    Base58DecodeError(String),
    Base64DecodeError(String),
    InternalError,
}

/// The error is `InvalidInput` and carries exactly this message.
pub open spec fn invalid_input_exactly(e: ServerError, text: Seq<char>) -> bool {
    e matches ServerError::InvalidInput(m) && m@ == text
}

/// The error is `InvalidInput` and its message begins with this text — the
/// text names the offending field, the rest carries the parse failure's
/// own words.
pub open spec fn invalid_input_starting(e: ServerError, prefix: Seq<char>) -> bool {
    e matches ServerError::InvalidInput(m) && prefix.is_prefix_of(m@)
}

} // verus!
