//! Base58 and base64 text envelopes for byte strings.
//!
//! The two alphabets are the work of the `bs58` and `base64` crates. Their
//! results are named here by uninterpreted functions; the only facts assumed
//! of those names are that decoding the text an encoder produced gives the
//! bytes back.

use vstd::prelude::*;
use crate::keys::{is_keypair, public_of, Keypair, PublicKey, Signature};

verus! {

/// The Bitcoin-alphabet base58 text that `bs58` produces for `bytes`.
pub uninterp spec fn bs58_encoding(bytes: Seq<u8>) -> Seq<char>;

/// The bytes that `bs58` reads from `text`, or `None` where it rejects it.
pub uninterp spec fn bs58_decoding(text: Seq<char>) -> Option<Seq<u8>>;

/// The padded standard-alphabet base64 text that `base64` produces for `bytes`.
pub uninterp spec fn base64_encoding(bytes: Seq<u8>) -> Seq<char>;

/// The bytes that `base64` reads from `text` under the standard alphabet with
/// canonical padding required, or `None` where it rejects it.
pub uninterp spec fn base64_decoding(text: Seq<char>) -> Option<Seq<u8>>;

/// The error of `bs58`'s decoder, carried as an opaque value.
#[verifier::external_type_specification]
#[verifier::external_body]
pub struct ExBs58DecodeError(bs58::decode::Error);

/// The error of `base64`'s decoder, carried as an opaque value.
#[verifier::external_type_specification]
#[verifier::external_body]
pub struct ExBase64DecodeError(base64::DecodeError);

/// Why a text could not be read.
#[derive(Clone, Copy, Debug, PartialEq, Eq, Structural)]
pub enum CodecError {
    /// The text is not a well-formed encoding in the expected alphabet.
    InvalidEncoding,
    /// The text is not base58, or does not decode to 32 bytes.
    InvalidAddress,
    /// The text is not base58, or does not decode to 64 bytes, or the last
    /// 32 of them are not the public key of the first 32.
    InvalidSecret,
    /// The text is not base64.
    InvalidSignatureEncoding,
    /// The text is base64 but does not decode to 64 bytes.
    InvalidSignatureFormat,
}

/// Decoding the base58 text of `bytes` gives `bytes` back.
pub open spec fn b58_round_trips(bytes: Seq<u8>) -> bool {
    bs58_decoding(bs58_encoding(bytes)) == Some(bytes)
}

/// Decoding the base64 text of `bytes` gives `bytes` back.
pub open spec fn b64_round_trips(bytes: Seq<u8>) -> bool {
    base64_decoding(base64_encoding(bytes)) == Some(bytes)
}

/// The public key that `text` spells: its base58 decoding, where that has
/// exactly 32 bytes.
pub open spec fn parse_pubkey_spec(text: Seq<char>) -> Option<Seq<u8>> {
    match bs58_decoding(text) {
        Some(bytes) => if bytes.len() == 32 {
            Some(bytes)
        } else {
            None
        },
        None => None,
    }
}

/// The secret key that `text` spells: its base58 decoding, where that is a
/// consistent 64-byte key pair.
pub open spec fn parse_secret_spec(text: Seq<char>) -> Option<Seq<u8>> {
    match bs58_decoding(text) {
        Some(bytes) => if is_keypair(bytes) {
            Some(bytes)
        } else {
            None
        },
        None => None,
    }
}

/// The signature that `text` spells, or the reason it spells none: its
/// base64 decoding, where that has exactly 64 bytes.
pub open spec fn parse_signature_spec(text: Seq<char>) -> Result<Seq<u8>, CodecError> {
    match base64_decoding(text) {
        Some(bytes) => if bytes.len() == 64 {
            Ok(bytes)
        } else {
            Err(CodecError::InvalidSignatureFormat)
        },
        None => Err(CodecError::InvalidSignatureEncoding),
    }
}

/// Calls `bs58::encode(..).into_string()`. Trusted: the result is the text
/// named by `bs58_encoding`, and `bs58`'s decoder reads that text back as
/// `bytes`.
#[verifier::external_body]
pub(crate) fn bs58_encode_to_string(bytes: &[u8]) -> (text: String)
    ensures
        text@ == bs58_encoding(bytes@),
        bs58_decoding(text@) == Some(bytes@),
{
    bs58::encode(bytes).into_string()
}

/// Calls `bs58::decode(..).into_vec()`. Trusted: success and the bytes read
/// are those named by `bs58_decoding`.
#[verifier::external_body]
pub(crate) fn bs58_decode_to_vec(text: &str) -> (r: Result<Vec<u8>, bs58::decode::Error>)
    ensures
        match r {
            Ok(bytes) => bs58_decoding(text@) == Some(bytes@),
            Err(_) => bs58_decoding(text@) is None,
        },
{
    bs58::decode(text).into_vec()
}

/// Calls `base64::encode`. Trusted: the result is the text named by
/// `base64_encoding`, and `base64`'s decoder reads that text back as `bytes`.
#[verifier::external_body]
#[allow(deprecated)]
pub(crate) fn base64_encode_to_string(bytes: &[u8]) -> (text: String)
    ensures
        text@ == base64_encoding(bytes@),
        base64_decoding(text@) == Some(bytes@),
{
    base64::encode(bytes)
}

/// Calls `base64::decode`. Trusted: success and the bytes read are those
/// named by `base64_decoding`.
#[verifier::external_body]
#[allow(deprecated)]
pub(crate) fn base64_decode_to_vec(text: &str) -> (r: Result<Vec<u8>, base64::DecodeError>)
    ensures
        match r {
            Ok(bytes) => base64_decoding(text@) == Some(bytes@),
            Err(_) => base64_decoding(text@) is None,
        },
{
    base64::decode(text)
}

/// Encodes `bytes` as base58 text. Decoding the result gives `bytes` back.
pub fn b58_encode(bytes: &[u8]) -> (text: String)
    ensures
        text@ == bs58_encoding(bytes@),
        b58_round_trips(bytes@),
{
    bs58_encode_to_string(bytes)
}

/// Decodes base58 text. Fails with `InvalidEncoding` exactly on the texts
/// that are not base58.
pub fn b58_decode(text: &str) -> (r: Result<Vec<u8>, CodecError>)
    ensures
        match bs58_decoding(text@) {
            Some(bytes) => r matches Ok(v) && v@ == bytes,
            None => r == Err::<Vec<u8>, CodecError>(CodecError::InvalidEncoding),
        },
{
    match bs58_decode_to_vec(text) {
        Ok(bytes) => Ok(bytes),
        Err(_) => Err(CodecError::InvalidEncoding),
    }
}

/// Encodes `bytes` as padded base64 text. Decoding the result gives `bytes`
/// back.
pub fn b64_encode(bytes: &[u8]) -> (text: String)
    ensures
        text@ == base64_encoding(bytes@),
        b64_round_trips(bytes@),
{
    base64_encode_to_string(bytes)
}

/// Decodes padded base64 text. Fails with `InvalidEncoding` exactly on the
/// texts that are not canonical base64.
pub fn b64_decode(text: &str) -> (r: Result<Vec<u8>, CodecError>)
    ensures
        match base64_decoding(text@) {
            Some(bytes) => r matches Ok(v) && v@ == bytes,
            None => r == Err::<Vec<u8>, CodecError>(CodecError::InvalidEncoding),
        },
{
    match base64_decode_to_vec(text) {
        Ok(bytes) => Ok(bytes),
        Err(_) => Err(CodecError::InvalidEncoding),
    }
}

/// Reads a public key from base58 text. Fails with `InvalidAddress` exactly
/// when the text is not base58 or does not decode to 32 bytes.
pub fn parse_pubkey(text: &str) -> (r: Result<PublicKey, CodecError>)
    ensures
        match parse_pubkey_spec(text@) {
            Some(bytes) => r matches Ok(key) && key@ == bytes,
            None => r == Err::<PublicKey, CodecError>(CodecError::InvalidAddress),
        },
{
    match bs58_decode_to_vec(text) {
        Ok(bytes) => match PublicKey::from_slice(bytes.as_slice()) {
            Some(key) => Ok(key),
            None => Err(CodecError::InvalidAddress),
        },
        Err(_) => Err(CodecError::InvalidAddress),
    }
}

/// Reads a key pair from the base58 text of its 64 secret bytes. Fails with
/// `InvalidSecret` exactly when the text is not base58, does not decode to
/// 64 bytes, or the last 32 bytes are not the public key of the first 32.
pub fn parse_secret(text: &str) -> (r: Result<Keypair, CodecError>)
    ensures
        match parse_secret_spec(text@) {
            Some(secret) => r matches Ok(pair) && pair@ == secret,
            None => r is Err && r->Err_0 == CodecError::InvalidSecret,
        },
{
    match bs58_decode_to_vec(text) {
        Ok(bytes) => match Keypair::from_bytes(bytes.as_slice()) {
            Some(pair) => Ok(pair),
            None => Err(CodecError::InvalidSecret),
        },
        Err(_) => Err(CodecError::InvalidSecret),
    }
}

/// Reads a signature from base64 text. Fails with `InvalidSignatureEncoding`
/// exactly when the text is not base64, and with `InvalidSignatureFormat`
/// exactly when it is but does not decode to 64 bytes.
pub fn parse_signature(text: &str) -> (r: Result<Signature, CodecError>)
    ensures
        match parse_signature_spec(text@) {
            Ok(bytes) => r matches Ok(signature) && signature@ == bytes,
            Err(e) => r == Err::<Signature, CodecError>(e),
        },
{
    match base64_decode_to_vec(text) {
        Ok(bytes) => match Signature::from_slice(bytes.as_slice()) {
            Some(signature) => Ok(signature),
            None => Err(CodecError::InvalidSignatureFormat),
        },
        Err(_) => Err(CodecError::InvalidSignatureEncoding),
    }
}

/// A key pair written out in base58 reads back as itself, and the public key
/// read back from the base58 text of its public half is the public half of
/// the pair read back from the secret.
pub proof fn lemma_keypair_text_round_trip(secret: Seq<u8>)
    requires
        is_keypair(secret),
        b58_round_trips(secret),
        b58_round_trips(public_of(secret)),
    ensures
        parse_secret_spec(bs58_encoding(secret)) == Some(secret),
        parse_pubkey_spec(bs58_encoding(public_of(secret))) == Some(
            public_of(parse_secret_spec(bs58_encoding(secret))->0),
        ),
{
}

} // verus!
