//! Stateless core of a proof-of-stake ledger client: Ed25519 keypair
//! generation, message signing and verification, and construction of
//! well-formed unsigned protocol instructions (native transfer, token
//! transfer, mint initialization, mint-to).
//!
//! Every operation is a pure function from a validated request to a response
//! value or a typed failure. The cryptographic primitives, the base-58 and
//! base-64 codecs and the canonical instruction constructors are supplied by
//! outside crates and are relied on only through small trusted wrappers; all
//! validation, ordering and encoding rules around them are verified.

pub mod codec;
pub mod error;
pub mod instruction;
pub mod keypair;
pub mod message;
pub mod response;
pub mod send;
pub mod token;
