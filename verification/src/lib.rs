//! Instruction builders and a cryptographic envelope for a Solana-style
//! account model: base58 and base64 codecs, Ed25519 key pairs and detached
//! signatures, associated-token-account addresses, SPL-Token and
//! System-Program instructions, and the replies that carry them.

pub mod address;
pub mod codec;
pub mod error;
pub mod instruction;
pub mod keys;
pub mod layout;
pub mod reply;
pub mod service;
