//! The failures a request can meet, and the words and status that report
//! them.

use vstd::prelude::*;

verus! {

/// The request field that held an address.
#[derive(Clone, Copy, Debug, PartialEq, Eq, Structural)]
pub enum Field {
    Mint,
    MintAuthority,
    Authority,
    Destination,
    Owner,
    From,
    To,
    PublicKey,
}

/// The instruction builder that was at work.
#[derive(Clone, Copy, Debug, PartialEq, Eq, Structural)]
pub enum Builder {
    InitializeMint,
    Transfer,
    MintTo,
}

/// Why a request was refused. None of these ends the process; each becomes
/// an error reply.
#[derive(Clone, Copy, Debug, PartialEq, Eq, Structural)]
pub enum ServiceError {
    /// A required field of the request was absent.
    MissingField,
    /// The named field is not base58, or does not decode to 32 bytes.
    InvalidAddress(Field),
    /// The secret is not base58, or not 64 bytes, or not a consistent pair.
    InvalidSecret,
    /// The signature is not base64.
    InvalidSignatureEncoding,
    /// The signature is base64 but not 64 bytes.
    InvalidSignatureFormat,
    /// The named builder could not make its instruction.
    BuildFailed(Builder),
    /// The path is known but the method is not `POST`.
    MethodNotAllowed,
}

/// Status of a reply that carries a result.
pub const STATUS_OK: u16 = 200;

/// Status of a reply that reports a refused request.
pub const STATUS_BAD_REQUEST: u16 = 400;

/// Status of a reply to a method other than `POST`.
pub const STATUS_METHOD_NOT_ALLOWED: u16 = 405;

impl ServiceError {
    /// The human-readable text of the error.
    pub open spec fn message_spec(self) -> Seq<char> {
        match self {
            ServiceError::MissingField => "Missing required fields"@,
            ServiceError::InvalidAddress(Field::Mint) => "Invalid mint address"@,
            ServiceError::InvalidAddress(Field::MintAuthority) => "Invalid mint authority address"@,
            ServiceError::InvalidAddress(Field::Authority) => "Invalid authority address"@,
            ServiceError::InvalidAddress(Field::Destination) => "Invalid destination address"@,
            ServiceError::InvalidAddress(Field::Owner) => "Invalid owner address"@,
            ServiceError::InvalidAddress(Field::From) => "Invalid from address"@,
            ServiceError::InvalidAddress(Field::To) => "Invalid to address"@,
            ServiceError::InvalidAddress(Field::PublicKey) => "Invalid public key"@,
            ServiceError::InvalidSecret => "Invalid secret key"@,
            ServiceError::InvalidSignatureEncoding => "Invalid signature encoding"@,
            ServiceError::InvalidSignatureFormat => "Invalid signature format"@,
            ServiceError::BuildFailed(Builder::InitializeMint) => "Failed to build InitializeMint instruction"@,
            ServiceError::BuildFailed(Builder::Transfer) => "Failed to build transfer instruction"@,
            ServiceError::BuildFailed(Builder::MintTo) => "Failed to build mint_to instruction"@,
            ServiceError::MethodNotAllowed => "Method not allowed"@,
        }
    }

    /// The HTTP status of the error: 405 for a wrong method, 400 for every
    /// failure to validate.
    pub open spec fn status_spec(self) -> u16 {
        match self {
            ServiceError::MethodNotAllowed => STATUS_METHOD_NOT_ALLOWED,
            _ => STATUS_BAD_REQUEST,
        }
    }

    /// The human-readable text of the error.
    pub fn message(&self) -> (text: String)
        ensures
            text@ == self.message_spec(),
    {
        match self {
            ServiceError::MissingField => "Missing required fields".to_owned(),
            ServiceError::InvalidAddress(Field::Mint) => "Invalid mint address".to_owned(),
            ServiceError::InvalidAddress(Field::MintAuthority) => "Invalid mint authority address".to_owned(),
            ServiceError::InvalidAddress(Field::Authority) => "Invalid authority address".to_owned(),
            ServiceError::InvalidAddress(Field::Destination) => "Invalid destination address".to_owned(),
            ServiceError::InvalidAddress(Field::Owner) => "Invalid owner address".to_owned(),
            ServiceError::InvalidAddress(Field::From) => "Invalid from address".to_owned(),
            ServiceError::InvalidAddress(Field::To) => "Invalid to address".to_owned(),
            ServiceError::InvalidAddress(Field::PublicKey) => "Invalid public key".to_owned(),
            ServiceError::InvalidSecret => "Invalid secret key".to_owned(),
            ServiceError::InvalidSignatureEncoding => "Invalid signature encoding".to_owned(),
            ServiceError::InvalidSignatureFormat => "Invalid signature format".to_owned(),
            ServiceError::BuildFailed(Builder::InitializeMint) => "Failed to build InitializeMint instruction".to_owned(),
            ServiceError::BuildFailed(Builder::Transfer) => "Failed to build transfer instruction".to_owned(),
            ServiceError::BuildFailed(Builder::MintTo) => "Failed to build mint_to instruction".to_owned(),
            ServiceError::MethodNotAllowed => "Method not allowed".to_owned(),
        }
    }

    /// The HTTP status of the error.
    pub fn status(&self) -> (code: u16)
        ensures
            code == self.status_spec(),
    {
        match self {
            ServiceError::MethodNotAllowed => STATUS_METHOD_NOT_ALLOWED,
            _ => STATUS_BAD_REQUEST,
        }
    }
}

} // verus!
