//! The operations of the service, each a function from a decoded request to
//! a status and a reply.
//!
//! Every field of a request is optional when it arrives. An operation first
//! asks that all of its fields are present, then reads them in a fixed
//! order, and reports the first that fails. Apart from the making of a new
//! key pair, the reply is a function of the request alone.

use vstd::prelude::*;
use vstd::utf8::encode_utf8;
use crate::address::{derive_ata, derive_ata_spec};
use crate::codec::{
    b58_encode, b64_encode, base64_encoding, bs58_encoding, lemma_keypair_text_round_trip,
    parse_pubkey, parse_pubkey_spec, parse_secret, parse_secret_spec, parse_signature,
    parse_signature_spec, CodecError,
};
use crate::error::{Builder, Field, ServiceError};
use crate::instruction::{
    initialize_mint, initialize_mint_spec, mint_to, mint_to_spec, spl_transfer, spl_transfer_spec,
    system_transfer, system_transfer_spec,
};
use crate::keys::{
    ed25519_accepts, ed25519_signature, generate_keypair, is_keypair, public_of, seed_of, sign,
    verify, Keypair, PublicKey,
};
use crate::reply::{
    failure, outcome_spec, shape_instruction, shape_instruction_spec, shape_sol_transfer,
    shape_sol_transfer_spec, shape_token_transfer, shape_token_transfer_spec, success,
    KeypairData, KeypairDataView, ReplyData, ReplyDataView, Response, ResponseView, SignatureData,
    SignatureDataView, VerificationData, VerificationDataView,
};

verus! {

/// The text of an optional string.
pub open spec fn text_view(field: Option<String>) -> Option<Seq<char>> {
    match field {
        Some(text) => Some(text@),
        None => None,
    }
}

/// Request to build an `InitializeMint` instruction.
#[derive(Clone, Debug, PartialEq, Eq)]
pub struct MintToken {
    pub mint_authority: Option<String>,
    pub mint: Option<String>,
    pub decimals: Option<u8>,
}

/// The mathematical value of `MintToken`, with texts as sequences of characters.
pub struct MintTokenView {
    pub mint_authority: Option<Seq<char>>,
    pub mint: Option<Seq<char>>,
    pub decimals: Option<u8>,
}

impl View for MintToken {
    type V = MintTokenView;

    open spec fn view(&self) -> MintTokenView {
        MintTokenView {
            mint_authority: text_view(self.mint_authority),
            mint: text_view(self.mint),
            decimals: self.decimals,
        }
    }
}

/// Request to sign a message.
#[derive(Clone, Debug, PartialEq, Eq)]
pub struct SignData {
    pub message: Option<String>,
    pub secret: Option<String>,
}

/// The mathematical value of `SignData`, with texts as sequences of characters.
pub struct SignDataView {
    pub message: Option<Seq<char>>,
    pub secret: Option<Seq<char>>,
}

impl View for SignData {
    type V = SignDataView;

    open spec fn view(&self) -> SignDataView {
        SignDataView { message: text_view(self.message), secret: text_view(self.secret) }
    }
}

/// Request to verify a signature.
#[derive(Clone, Debug, PartialEq, Eq)]
pub struct VerifyData {
    pub signature: Option<String>,
    pub message: Option<String>,
    pub pubkey: Option<String>,
}

/// The mathematical value of `VerifyData`, with texts as sequences of characters.
pub struct VerifyDataView {
    pub signature: Option<Seq<char>>,
    pub message: Option<Seq<char>>,
    pub pubkey: Option<Seq<char>>,
}

impl View for VerifyData {
    type V = VerifyDataView;

    open spec fn view(&self) -> VerifyDataView {
        VerifyDataView {
            signature: text_view(self.signature),
            message: text_view(self.message),
            pubkey: text_view(self.pubkey),
        }
    }
}

/// Request to build a lamport transfer.
#[derive(Clone, Debug, PartialEq, Eq)]
pub struct SendSol {
    pub from: Option<String>,
    pub to: Option<String>,
    pub lamports: Option<u64>,
}

/// The mathematical value of `SendSol`, with texts as sequences of characters.
pub struct SendSolView {
    pub from: Option<Seq<char>>,
    pub to: Option<Seq<char>>,
    pub lamports: Option<u64>,
}

impl View for SendSol {
    type V = SendSolView;

    open spec fn view(&self) -> SendSolView {
        SendSolView { from: text_view(self.from), to: text_view(self.to), lamports: self.lamports }
    }
}

/// Request to build a token transfer between two owners' associated token
/// accounts.
#[derive(Clone, Debug, PartialEq, Eq)]
pub struct SendToken {
    pub destination: Option<String>,
    pub mint: Option<String>,
    pub owner: Option<String>,
    pub amount: Option<u64>,
}

/// The mathematical value of `SendToken`, with texts as sequences of characters.
pub struct SendTokenView {
    pub destination: Option<Seq<char>>,
    pub mint: Option<Seq<char>>,
    pub owner: Option<Seq<char>>,
    pub amount: Option<u64>,
}

impl View for SendToken {
    type V = SendTokenView;

    open spec fn view(&self) -> SendTokenView {
        SendTokenView {
            destination: text_view(self.destination),
            mint: text_view(self.mint),
            owner: text_view(self.owner),
            amount: self.amount,
        }
    }
}

/// Request to build a `MintTo` instruction.
#[derive(Clone, Debug, PartialEq, Eq)]
pub struct MintTokenRequest {
    pub mint: Option<String>,
    pub destination: Option<String>,
    pub authority: Option<String>,
    pub amount: Option<u64>,
}

/// The mathematical value of `MintTokenRequest`, with texts as sequences of characters.
pub struct MintTokenRequestView {
    pub mint: Option<Seq<char>>,
    pub destination: Option<Seq<char>>,
    pub authority: Option<Seq<char>>,
    pub amount: Option<u64>,
}

impl View for MintTokenRequest {
    type V = MintTokenRequestView;

    open spec fn view(&self) -> MintTokenRequestView {
        MintTokenRequestView {
            mint: text_view(self.mint),
            destination: text_view(self.destination),
            authority: text_view(self.authority),
            amount: self.amount,
        }
    }
}

/// A decoded request: the operation and its record.
#[derive(Clone, Debug, PartialEq, Eq)]
pub enum Request {
    Keypair,
    CreateMint(MintToken),
    MintTo(MintTokenRequest),
    Sign(SignData),
    Verify(VerifyData),
    SendSol(SendSol),
    SendToken(SendToken),
}

/// The mathematical value of `Request`, with texts as sequences of characters.
pub enum RequestView {
    Keypair,
    CreateMint(MintTokenView),
    MintTo(MintTokenRequestView),
    Sign(SignDataView),
    Verify(VerifyDataView),
    SendSol(SendSolView),
    SendToken(SendTokenView),
}

impl View for Request {
    type V = RequestView;

    open spec fn view(&self) -> RequestView {
        match self {
            Request::Keypair => RequestView::Keypair,
            Request::CreateMint(p) => RequestView::CreateMint(p@),
            Request::MintTo(p) => RequestView::MintTo(p@),
            Request::Sign(p) => RequestView::Sign(p@),
            Request::Verify(p) => RequestView::Verify(p@),
            Request::SendSol(p) => RequestView::SendSol(p@),
            Request::SendToken(p) => RequestView::SendToken(p@),
        }
    }
}

/// The address that the text of `field` spells, or the error that names the
/// field.
pub open spec fn address_spec(text: Seq<char>, field: Field) -> Result<Seq<u8>, ServiceError> {
    match parse_pubkey_spec(text) {
        Some(key) => Ok(key),
        None => Err(ServiceError::InvalidAddress(field)),
    }
}

/// Reads the address in `field`.
pub fn parse_address(text: &str, field: Field) -> (r: Result<PublicKey, ServiceError>)
    ensures
        match address_spec(text@, field) {
            Ok(key) => r matches Ok(k) && k@ == key,
            Err(e) => r == Err::<PublicKey, ServiceError>(e),
        },
{
    match parse_pubkey(text) {
        Ok(key) => Ok(key),
        Err(_) => Err(ServiceError::InvalidAddress(field)),
    }
}

/// What `/token/create` answers: present fields, then the mint, then the
/// mint authority, then the `InitializeMint` instruction with full account
/// metas.
pub open spec fn create_token_spec(p: MintTokenView) -> Result<ReplyDataView, ServiceError> {
    match (p.mint, p.mint_authority, p.decimals) {
        (Some(mint), Some(authority), Some(decimals)) => match address_spec(mint, Field::Mint) {
            Err(e) => Err(e),
            Ok(mint) => match address_spec(authority, Field::MintAuthority) {
                Err(e) => Err(e),
                Ok(authority) => Ok(
                    ReplyDataView::Instruction(
                        shape_instruction_spec(initialize_mint_spec(mint, authority, decimals)),
                    ),
                ),
            },
        },
        _ => Err(ServiceError::MissingField),
    }
}

/// What `/token/mint` answers: present fields, then the mint, the authority
/// and the destination, then the `MintTo` instruction with full account
/// metas. The destination is the token account itself, as given.
pub open spec fn mint_token_spec(p: MintTokenRequestView) -> Result<ReplyDataView, ServiceError> {
    match (p.mint, p.authority, p.destination, p.amount) {
        (Some(mint), Some(authority), Some(destination), Some(amount)) => match address_spec(
            mint,
            Field::Mint,
        ) {
            Err(e) => Err(e),
            Ok(mint) => match address_spec(authority, Field::Authority) {
                Err(e) => Err(e),
                Ok(authority) => match address_spec(destination, Field::Destination) {
                    Err(e) => Err(e),
                    Ok(destination) => Ok(
                        ReplyDataView::Instruction(
                            shape_instruction_spec(
                                mint_to_spec(mint, destination, authority, amount),
                            ),
                        ),
                    ),
                },
            },
        },
        _ => Err(ServiceError::MissingField),
    }
}

/// What `/send/sol` answers: present fields, then the payer, then the
/// payee, then the System `Transfer` instruction with its accounts as bare
/// keys.
pub open spec fn send_sol_spec(p: SendSolView) -> Result<ReplyDataView, ServiceError> {
    match (p.from, p.to, p.lamports) {
        (Some(from), Some(to), Some(lamports)) => match address_spec(from, Field::From) {
            Err(e) => Err(e),
            Ok(from) => match address_spec(to, Field::To) {
                Err(e) => Err(e),
                Ok(to) => Ok(
                    ReplyDataView::SolTransfer(
                        shape_sol_transfer_spec(system_transfer_spec(from, to, lamports)),
                    ),
                ),
            },
        },
        _ => Err(ServiceError::MissingField),
    }
}

/// What `/send/token` answers: present fields, then the destination, the
/// mint and the owner, then the SPL `Transfer` between the associated token
/// accounts of owner and destination for the mint, with signer flags alone.
/// The mint itself is no account of the instruction.
pub open spec fn send_token_spec(p: SendTokenView) -> Result<ReplyDataView, ServiceError> {
    match (p.destination, p.mint, p.owner, p.amount) {
        (Some(destination), Some(mint), Some(owner), Some(amount)) => match address_spec(
            destination,
            Field::Destination,
        ) {
            Err(e) => Err(e),
            Ok(destination) => match address_spec(mint, Field::Mint) {
                Err(e) => Err(e),
                Ok(mint) => match address_spec(owner, Field::Owner) {
                    Err(e) => Err(e),
                    Ok(owner) => match (
                        derive_ata_spec(owner, mint),
                        derive_ata_spec(destination, mint),
                    ) {
                        (Some(source), Some(target)) => Ok(
                            ReplyDataView::TokenTransfer(
                                shape_token_transfer_spec(
                                    spl_transfer_spec(source, target, owner, amount),
                                ),
                            ),
                        ),
                        _ => Err(ServiceError::BuildFailed(Builder::Transfer)),
                    },
                },
            },
        },
        _ => Err(ServiceError::MissingField),
    }
}

/// What `/message/sign` answers: present fields, then the secret, then the
/// signature of the message's UTF-8 bytes in base64, the signer's public key
/// in base58, and the message.
pub open spec fn sign_message_spec(p: SignDataView) -> Result<ReplyDataView, ServiceError> {
    match (p.message, p.secret) {
        (Some(message), Some(secret)) => match parse_secret_spec(secret) {
            None => Err(ServiceError::InvalidSecret),
            Some(secret) => Ok(
                ReplyDataView::Signature(
                    SignatureDataView {
                        signature: base64_encoding(
                            ed25519_signature(seed_of(secret), encode_utf8(message)),
                        ),
                        public_key: bs58_encoding(public_of(secret)),
                        message,
                    },
                ),
            ),
        },
        _ => Err(ServiceError::MissingField),
    }
}

/// What `/message/verify` answers: present fields, then the signature's
/// encoding, then its length, then the public key, then the verdict with the
/// message and the key written back in base58. A signature that does not
/// verify is a result, not an error.
pub open spec fn verify_message_spec(p: VerifyDataView) -> Result<ReplyDataView, ServiceError> {
    match (p.signature, p.message, p.pubkey) {
        (Some(signature), Some(message), Some(pubkey)) => match parse_signature_spec(signature) {
            Err(CodecError::InvalidSignatureFormat) => Err(ServiceError::InvalidSignatureFormat),
            Err(_) => Err(ServiceError::InvalidSignatureEncoding),
            Ok(signature) => match address_spec(pubkey, Field::PublicKey) {
                Err(e) => Err(e),
                Ok(public) => Ok(
                    ReplyDataView::Verification(
                        VerificationDataView {
                            valid: ed25519_accepts(public, encode_utf8(message), signature),
                            message,
                            pubkey: bs58_encoding(public),
                        },
                    ),
                ),
            },
        },
        _ => Err(ServiceError::MissingField),
    }
}

/// What `/keypair` answers for the pair with the given secret bytes: both
/// halves in base58.
pub open spec fn keypair_reply_spec(secret: Seq<u8>) -> ReplyDataView {
    ReplyDataView::Keypair(
        KeypairDataView {
            pubkey: bs58_encoding(public_of(secret)),
            secret: bs58_encoding(secret),
        },
    )
}

/// Whether `reply` announces a new key pair as it should: status 200, and a
/// secret that reads back as a consistent pair whose public half is the key
/// that the announced public key reads back as.
pub open spec fn announces_keypair(status: u16, reply: ResponseView) -> bool {
    exists|secret: Seq<u8>|
        {
            &&& is_keypair(secret)
            &&& (status, reply) == outcome_spec(Ok(#[trigger] keypair_reply_spec(secret)))
            &&& parse_secret_spec(bs58_encoding(secret)) == Some(secret)
            &&& parse_pubkey_spec(bs58_encoding(public_of(secret))) == Some(public_of(secret))
        }
}

/// Whether `status` and `reply` answer `request`. For every operation but
/// the making of a key pair there is exactly one answer, so equal requests
/// get equal replies.
pub open spec fn answers(request: RequestView, status: u16, reply: ResponseView) -> bool {
    match request {
        RequestView::Keypair => announces_keypair(status, reply),
        RequestView::CreateMint(p) => (status, reply) == outcome_spec(create_token_spec(p)),
        RequestView::MintTo(p) => (status, reply) == outcome_spec(mint_token_spec(p)),
        RequestView::Sign(p) => (status, reply) == outcome_spec(sign_message_spec(p)),
        RequestView::Verify(p) => (status, reply) == outcome_spec(verify_message_spec(p)),
        RequestView::SendSol(p) => (status, reply) == outcome_spec(send_sol_spec(p)),
        RequestView::SendToken(p) => (status, reply) == outcome_spec(send_token_spec(p)),
    }
}

/// Two answers to one request, other than the making of a key pair, are the
/// same status and the same reply.
pub proof fn lemma_answer_is_determined(
    request: RequestView,
    status_a: u16,
    reply_a: ResponseView,
    status_b: u16,
    reply_b: ResponseView,
)
    requires
        !(request is Keypair),
        answers(request, status_a, reply_a),
        answers(request, status_b, reply_b),
    ensures
        status_a == status_b,
        reply_a == reply_b,
{
}

/// Answers `/token/create`.
pub fn create_token(payload: &MintToken) -> (r: (u16, Response))
    ensures
        (r.0, r.1@) == outcome_spec(create_token_spec(payload@)),
{
    let (mint, authority, decimals) = match (
        &payload.mint,
        &payload.mint_authority,
        payload.decimals,
    ) {
        (Some(mint), Some(authority), Some(decimals)) => (mint, authority, decimals),
        _ => {
            return failure(ServiceError::MissingField);
        },
    };
    let mint = match parse_address(mint.as_str(), Field::Mint) {
        Ok(key) => key,
        Err(e) => {
            return failure(e);
        },
    };
    let authority = match parse_address(authority.as_str(), Field::MintAuthority) {
        Ok(key) => key,
        Err(e) => {
            return failure(e);
        },
    };
    let ix = initialize_mint(&mint, &authority, decimals);
    success(ReplyData::Instruction(shape_instruction(&ix)))
}

/// Answers `/token/mint`.
pub fn mint_token(payload: &MintTokenRequest) -> (r: (u16, Response))
    ensures
        (r.0, r.1@) == outcome_spec(mint_token_spec(payload@)),
{
    let (mint, authority, destination, amount) = match (
        &payload.mint,
        &payload.authority,
        &payload.destination,
        payload.amount,
    ) {
        (Some(mint), Some(authority), Some(destination), Some(amount)) => (
            mint,
            authority,
            destination,
            amount,
        ),
        _ => {
            return failure(ServiceError::MissingField);
        },
    };
    let mint = match parse_address(mint.as_str(), Field::Mint) {
        Ok(key) => key,
        Err(e) => {
            return failure(e);
        },
    };
    let authority = match parse_address(authority.as_str(), Field::Authority) {
        Ok(key) => key,
        Err(e) => {
            return failure(e);
        },
    };
    let destination = match parse_address(destination.as_str(), Field::Destination) {
        Ok(key) => key,
        Err(e) => {
            return failure(e);
        },
    };
    let ix = mint_to(&mint, &destination, &authority, amount);
    success(ReplyData::Instruction(shape_instruction(&ix)))
}

/// Answers `/send/sol`.
pub fn send_sol(payload: &SendSol) -> (r: (u16, Response))
    ensures
        (r.0, r.1@) == outcome_spec(send_sol_spec(payload@)),
{
    let (from, to, lamports) = match (&payload.from, &payload.to, payload.lamports) {
        (Some(from), Some(to), Some(lamports)) => (from, to, lamports),
        _ => {
            return failure(ServiceError::MissingField);
        },
    };
    let from = match parse_address(from.as_str(), Field::From) {
        Ok(key) => key,
        Err(e) => {
            return failure(e);
        },
    };
    let to = match parse_address(to.as_str(), Field::To) {
        Ok(key) => key,
        Err(e) => {
            return failure(e);
        },
    };
    let ix = system_transfer(&from, &to, lamports);
    success(ReplyData::SolTransfer(shape_sol_transfer(&ix)))
}

/// Answers `/send/token`.
pub fn send_token(payload: &SendToken) -> (r: (u16, Response))
    ensures
        (r.0, r.1@) == outcome_spec(send_token_spec(payload@)),
{
    let (destination, mint, owner, amount) = match (
        &payload.destination,
        &payload.mint,
        &payload.owner,
        payload.amount,
    ) {
        (Some(destination), Some(mint), Some(owner), Some(amount)) => (
            destination,
            mint,
            owner,
            amount,
        ),
        _ => {
            return failure(ServiceError::MissingField);
        },
    };
    let destination = match parse_address(destination.as_str(), Field::Destination) {
        Ok(key) => key,
        Err(e) => {
            return failure(e);
        },
    };
    let mint = match parse_address(mint.as_str(), Field::Mint) {
        Ok(key) => key,
        Err(e) => {
            return failure(e);
        },
    };
    let owner = match parse_address(owner.as_str(), Field::Owner) {
        Ok(key) => key,
        Err(e) => {
            return failure(e);
        },
    };
    let source = derive_ata(&owner, &mint);
    let target = derive_ata(&destination, &mint);
    match (source, target) {
        (Some(source), Some(target)) => {
            let ix = spl_transfer(&source, &target, &owner, amount);
            success(ReplyData::TokenTransfer(shape_token_transfer(&ix)))
        },
        _ => failure(ServiceError::BuildFailed(Builder::Transfer)),
    }
}

/// Answers `/message/sign`.
pub fn sign_message(payload: &SignData) -> (r: (u16, Response))
    ensures
        (r.0, r.1@) == outcome_spec(sign_message_spec(payload@)),
{
    let (message, secret) = match (&payload.message, &payload.secret) {
        (Some(message), Some(secret)) => (message, secret),
        _ => {
            return failure(ServiceError::MissingField);
        },
    };
    let pair = match parse_secret(secret.as_str()) {
        Ok(pair) => pair,
        Err(_) => {
            return failure(ServiceError::InvalidSecret);
        },
    };
    let signature = sign(&pair, message.as_str().as_bytes());
    let public = pair.pubkey();
    success(
        ReplyData::Signature(
            SignatureData {
                signature: b64_encode(signature.bytes.as_slice()),
                public_key: b58_encode(public.bytes.as_slice()),
                message: message.clone(),
            },
        ),
    )
}

/// Answers `/message/verify`.
pub fn verify_message(payload: &VerifyData) -> (r: (u16, Response))
    ensures
        (r.0, r.1@) == outcome_spec(verify_message_spec(payload@)),
{
    let (signature, message, pubkey) = match (
        &payload.signature,
        &payload.message,
        &payload.pubkey,
    ) {
        (Some(signature), Some(message), Some(pubkey)) => (signature, message, pubkey),
        _ => {
            return failure(ServiceError::MissingField);
        },
    };
    let signature = match parse_signature(signature.as_str()) {
        Ok(signature) => signature,
        Err(CodecError::InvalidSignatureFormat) => {
            return failure(ServiceError::InvalidSignatureFormat);
        },
        Err(_) => {
            return failure(ServiceError::InvalidSignatureEncoding);
        },
    };
    let public = match parse_address(pubkey.as_str(), Field::PublicKey) {
        Ok(key) => key,
        Err(e) => {
            return failure(e);
        },
    };
    let valid = verify(&public, message.as_str().as_bytes(), &signature);
    success(
        ReplyData::Verification(
            VerificationData {
                valid,
                message: message.clone(),
                pubkey: b58_encode(public.bytes.as_slice()),
            },
        ),
    )
}

/// The reply that announces `pair`: both halves in base58, each of which
/// reads back as what was written.
pub fn keypair_reply(pair: &Keypair) -> (r: (u16, Response))
    ensures
        (r.0, r.1@) == outcome_spec(Ok(keypair_reply_spec(pair@))),
        announces_keypair(r.0, r.1@),
{
    let secret = pair.to_bytes();
    let public = pair.pubkey();
    let data = KeypairData {
        pubkey: b58_encode(public.bytes.as_slice()),
        secret: b58_encode(secret.as_slice()),
    };
    let r = success(ReplyData::Keypair(data));
    proof {
        lemma_keypair_text_round_trip(pair@);
        assert(keypair_reply_spec(pair@) == r.1@->Success_data);
    }
    r
}

/// Answers `/keypair`: makes a new key pair and announces it.
pub fn create_keypair() -> (r: (u16, Response))
    ensures
        announces_keypair(r.0, r.1@),
{
    let pair = generate_keypair();
    keypair_reply(&pair)
}

/// Answers a method other than `POST` on a known path.
pub fn incorrect_method() -> (r: (u16, Response))
    ensures
        (r.0, r.1@) == outcome_spec(Err(ServiceError::MethodNotAllowed)),
{
    failure(ServiceError::MethodNotAllowed)
}

/// Answers any request: the one total function from request to reply.
pub fn handle(request: &Request) -> (r: (u16, Response))
    ensures
        answers(request@, r.0, r.1@),
{
    match request {
        Request::Keypair => create_keypair(),
        Request::CreateMint(payload) => create_token(payload),
        Request::MintTo(payload) => mint_token(payload),
        Request::Sign(payload) => sign_message(payload),
        Request::Verify(payload) => verify_message(payload),
        Request::SendSol(payload) => send_sol(payload),
        Request::SendToken(payload) => send_token(payload),
    }
}

} // verus!
