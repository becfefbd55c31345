//! Replies: the envelopes that carry a result or an error back to the
//! client, and the shaping of instructions into them.
//!
//! Keys travel as base58 text and payloads and signatures as base64 text.
//! The three instruction envelopes differ in how they list accounts; the
//! difference is part of the wire format and is kept.

use vstd::prelude::*;
use crate::codec::{b58_encode, b64_encode, base64_encoding, bs58_encoding};
use crate::error::{ServiceError, STATUS_OK};
use crate::instruction::{AccountMeta, AccountMetaView, Instruction, InstructionView};

verus! {

/// An account with both of its flags.
#[derive(Clone, Debug, PartialEq, Eq)]
pub struct AccountMetaInfo {
    pub pubkey: String,
    pub is_signer: bool,
    pub is_writable: bool,
}

/// The mathematical value of `AccountMetaInfo`, with texts as sequences of characters.
pub struct AccountMetaInfoView {
    pub pubkey: Seq<char>,
    pub is_signer: bool,
    pub is_writable: bool,
}

impl View for AccountMetaInfo {
    type V = AccountMetaInfoView;

    open spec fn view(&self) -> AccountMetaInfoView {
        AccountMetaInfoView {
            pubkey: self.pubkey@,
            is_signer: self.is_signer,
            is_writable: self.is_writable,
        }
    }
}

/// An account with its signer flag alone.
#[derive(Clone, Debug, PartialEq, Eq)]
pub struct SendTokenResponse {
    pub pubkey: String,
    pub is_signer: bool,
}

/// The mathematical value of `SendTokenResponse`, with texts as sequences of characters.
pub struct SendTokenResponseView {
    pub pubkey: Seq<char>,
    pub is_signer: bool,
}

impl View for SendTokenResponse {
    type V = SendTokenResponseView;

    open spec fn view(&self) -> SendTokenResponseView {
        SendTokenResponseView { pubkey: self.pubkey@, is_signer: self.is_signer }
    }
}

/// An instruction whose accounts carry both flags.
#[derive(Clone, Debug, PartialEq, Eq)]
pub struct InstructionData {
    pub program_id: String,
    pub accounts: Vec<AccountMetaInfo>,
    pub instruction_data: String,
}

/// The mathematical value of `InstructionData`, with texts as sequences of characters.
pub struct InstructionDataView {
    pub program_id: Seq<char>,
    pub accounts: Seq<AccountMetaInfoView>,
    pub instruction_data: Seq<char>,
}

impl View for InstructionData {
    type V = InstructionDataView;

    open spec fn view(&self) -> InstructionDataView {
        InstructionDataView {
            program_id: self.program_id@,
            accounts: self.accounts@.map_values(|a: AccountMetaInfo| a@),
            instruction_data: self.instruction_data@,
        }
    }
}

/// An instruction whose accounts carry the signer flag alone.
#[derive(Clone, Debug, PartialEq, Eq)]
pub struct TokenTransferData {
    pub program_id: String,
    pub accounts: Vec<SendTokenResponse>,
    pub instruction_data: String,
}

/// The mathematical value of `TokenTransferData`, with texts as sequences of characters.
pub struct TokenTransferDataView {
    pub program_id: Seq<char>,
    pub accounts: Seq<SendTokenResponseView>,
    pub instruction_data: Seq<char>,
}

impl View for TokenTransferData {
    type V = TokenTransferDataView;

    open spec fn view(&self) -> TokenTransferDataView {
        TokenTransferDataView {
            program_id: self.program_id@,
            accounts: self.accounts@.map_values(|a: SendTokenResponse| a@),
            instruction_data: self.instruction_data@,
        }
    }
}

/// An instruction whose accounts are bare keys.
#[derive(Clone, Debug, PartialEq, Eq)]
pub struct SolTransferData {
    pub program_id: String,
    pub accounts: Vec<String>,
    pub instruction_data: String,
}

/// The mathematical value of `SolTransferData`, with texts as sequences of characters.
pub struct SolTransferDataView {
    pub program_id: Seq<char>,
    pub accounts: Seq<Seq<char>>,
    pub instruction_data: Seq<char>,
}

impl View for SolTransferData {
    type V = SolTransferDataView;

    open spec fn view(&self) -> SolTransferDataView {
        SolTransferDataView {
            program_id: self.program_id@,
            accounts: self.accounts@.map_values(|a: String| a@),
            instruction_data: self.instruction_data@,
        }
    }
}

/// A new key pair.
#[derive(Clone, Debug, PartialEq, Eq)]
pub struct KeypairData {
    pub pubkey: String,
    pub secret: String,
}

/// The mathematical value of `KeypairData`, with texts as sequences of characters.
pub struct KeypairDataView {
    pub pubkey: Seq<char>,
    pub secret: Seq<char>,
}

impl View for KeypairData {
    type V = KeypairDataView;

    open spec fn view(&self) -> KeypairDataView {
        KeypairDataView { pubkey: self.pubkey@, secret: self.secret@ }
    }
}

/// A signature, the key that checks it, and the message it signs.
#[derive(Clone, Debug, PartialEq, Eq)]
pub struct SignatureData {
    pub signature: String,
    pub public_key: String,
    pub message: String,
}

/// The mathematical value of `SignatureData`, with texts as sequences of characters.
pub struct SignatureDataView {
    pub signature: Seq<char>,
    pub public_key: Seq<char>,
    pub message: Seq<char>,
}

impl View for SignatureData {
    type V = SignatureDataView;

    open spec fn view(&self) -> SignatureDataView {
        SignatureDataView {
            signature: self.signature@,
            public_key: self.public_key@,
            message: self.message@,
        }
    }
}

/// The verdict on a signature, with the message and key it was checked
/// against.
#[derive(Clone, Debug, PartialEq, Eq)]
pub struct VerificationData {
    pub valid: bool,
    pub message: String,
    pub pubkey: String,
}

/// The mathematical value of `VerificationData`, with texts as sequences of characters.
pub struct VerificationDataView {
    pub valid: bool,
    pub message: Seq<char>,
    pub pubkey: Seq<char>,
}

impl View for VerificationData {
    type V = VerificationDataView;

    open spec fn view(&self) -> VerificationDataView {
        VerificationDataView { valid: self.valid, message: self.message@, pubkey: self.pubkey@ }
    }
}

/// What a successful reply carries; its shape follows the operation.
#[derive(Clone, Debug, PartialEq, Eq)]
pub enum ReplyData {
    Keypair(KeypairData),
    Instruction(InstructionData),
    SolTransfer(SolTransferData),
    TokenTransfer(TokenTransferData),
    Signature(SignatureData),
    Verification(VerificationData),
}

/// The mathematical value of `ReplyData`, with texts as sequences of characters.
pub enum ReplyDataView {
    Keypair(KeypairDataView),
    Instruction(InstructionDataView),
    SolTransfer(SolTransferDataView),
    TokenTransfer(TokenTransferDataView),
    Signature(SignatureDataView),
    Verification(VerificationDataView),
}

impl View for ReplyData {
    type V = ReplyDataView;

    open spec fn view(&self) -> ReplyDataView {
        match self {
            ReplyData::Keypair(d) => ReplyDataView::Keypair(d@),
            ReplyData::Instruction(d) => ReplyDataView::Instruction(d@),
            ReplyData::SolTransfer(d) => ReplyDataView::SolTransfer(d@),
            ReplyData::TokenTransfer(d) => ReplyDataView::TokenTransfer(d@),
            ReplyData::Signature(d) => ReplyDataView::Signature(d@),
            ReplyData::Verification(d) => ReplyDataView::Verification(d@),
        }
    }
}

/// A reply: a result with `success` set, or an error text with `success`
/// cleared.
#[derive(Clone, Debug, PartialEq, Eq)]
pub enum Response {
    Success { success: bool, data: ReplyData },
    Error { success: bool, error: String },
}

/// The mathematical value of `Response`, with texts as sequences of characters.
pub enum ResponseView {
    Success { success: bool, data: ReplyDataView },
    Error { success: bool, error: Seq<char> },
}

impl View for Response {
    type V = ResponseView;

    open spec fn view(&self) -> ResponseView {
        match self {
            Response::Success { success, data } => ResponseView::Success {
                success: *success,
                data: data@,
            },
            Response::Error { success, error } => ResponseView::Error {
                success: *success,
                error: error@,
            },
        }
    }
}

/// The status and reply that carry `data`.
pub open spec fn success_spec(data: ReplyDataView) -> (u16, ResponseView) {
    (STATUS_OK, ResponseView::Success { success: true, data })
}

/// The status and reply that report `error`.
pub open spec fn failure_spec(error: ServiceError) -> (u16, ResponseView) {
    (error.status_spec(), ResponseView::Error { success: false, error: error.message_spec() })
}

/// The status and reply of an outcome.
pub open spec fn outcome_spec(outcome: Result<ReplyDataView, ServiceError>) -> (
    u16,
    ResponseView,
) {
    match outcome {
        Ok(data) => success_spec(data),
        Err(error) => failure_spec(error),
    }
}

/// An account shaped with both flags.
pub open spec fn meta_info_spec(meta: AccountMetaView) -> AccountMetaInfoView {
    AccountMetaInfoView {
        pubkey: bs58_encoding(meta.pubkey),
        is_signer: meta.is_signer,
        is_writable: meta.is_writable,
    }
}

/// An account shaped with its signer flag alone.
pub open spec fn signer_info_spec(meta: AccountMetaView) -> SendTokenResponseView {
    SendTokenResponseView { pubkey: bs58_encoding(meta.pubkey), is_signer: meta.is_signer }
}

/// An instruction shaped with full account metas, in the builder's order.
pub open spec fn shape_instruction_spec(ix: InstructionView) -> InstructionDataView {
    InstructionDataView {
        program_id: bs58_encoding(ix.program_id),
        accounts: ix.accounts.map_values(|m: AccountMetaView| meta_info_spec(m)),
        instruction_data: base64_encoding(ix.data),
    }
}

/// An instruction shaped with signer flags alone, in the builder's order.
pub open spec fn shape_token_transfer_spec(ix: InstructionView) -> TokenTransferDataView {
    TokenTransferDataView {
        program_id: bs58_encoding(ix.program_id),
        accounts: ix.accounts.map_values(|m: AccountMetaView| signer_info_spec(m)),
        instruction_data: base64_encoding(ix.data),
    }
}

/// An instruction shaped with bare keys, in the builder's order.
pub open spec fn shape_sol_transfer_spec(ix: InstructionView) -> SolTransferDataView {
    SolTransferDataView {
        program_id: bs58_encoding(ix.program_id),
        accounts: ix.accounts.map_values(|m: AccountMetaView| bs58_encoding(m.pubkey)),
        instruction_data: base64_encoding(ix.data),
    }
}

/// Makes the reply that carries `data`, with status 200.
pub fn success(data: ReplyData) -> (r: (u16, Response))
    ensures
        (r.0, r.1@) == success_spec(data@),
{
    (STATUS_OK, Response::Success { success: true, data })
}

/// Makes the reply that reports `error`, with the error's status.
pub fn failure(error: ServiceError) -> (r: (u16, Response))
    ensures
        (r.0, r.1@) == failure_spec(error),
{
    (error.status(), Response::Error { success: false, error: error.message() })
}

/// Shapes an instruction with full account metas.
pub fn shape_instruction(ix: &Instruction) -> (data: InstructionData)
    ensures
        data@ == shape_instruction_spec(ix@),
{
    let mut accounts: Vec<AccountMetaInfo> = Vec::new();
    let mut i: usize = 0;
    while i < ix.accounts.len()
        invariant
            i <= ix.accounts@.len(),
            accounts@.len() == i,
            forall|j: int| 0 <= j < i ==> (#[trigger] accounts@[j])@ == meta_info_spec(ix.accounts@[j]@),
        decreases ix.accounts@.len() - i,
    {
        let meta: &AccountMeta = &ix.accounts[i];
        accounts.push(
            AccountMetaInfo {
                pubkey: b58_encode(meta.pubkey.bytes.as_slice()),
                is_signer: meta.is_signer,
                is_writable: meta.is_writable,
            },
        );
        i = i + 1;
    }
    let data = InstructionData {
        program_id: b58_encode(ix.program_id.bytes.as_slice()),
        accounts,
        instruction_data: b64_encode(ix.data.as_slice()),
    };
    assert(data@.accounts =~= shape_instruction_spec(ix@).accounts);
    data
}

/// Shapes an instruction with signer flags alone.
pub fn shape_token_transfer(ix: &Instruction) -> (data: TokenTransferData)
    ensures
        data@ == shape_token_transfer_spec(ix@),
{
    let mut accounts: Vec<SendTokenResponse> = Vec::new();
    let mut i: usize = 0;
    while i < ix.accounts.len()
        invariant
            i <= ix.accounts@.len(),
            accounts@.len() == i,
            forall|j: int| 0 <= j < i ==> (#[trigger] accounts@[j])@ == signer_info_spec(ix.accounts@[j]@),
        decreases ix.accounts@.len() - i,
    {
        let meta: &AccountMeta = &ix.accounts[i];
        accounts.push(
            SendTokenResponse {
                pubkey: b58_encode(meta.pubkey.bytes.as_slice()),
                is_signer: meta.is_signer,
            },
        );
        i = i + 1;
    }
    let data = TokenTransferData {
        program_id: b58_encode(ix.program_id.bytes.as_slice()),
        accounts,
        instruction_data: b64_encode(ix.data.as_slice()),
    };
    assert(data@.accounts =~= shape_token_transfer_spec(ix@).accounts);
    data
}

/// Shapes an instruction with bare keys.
pub fn shape_sol_transfer(ix: &Instruction) -> (data: SolTransferData)
    ensures
        data@ == shape_sol_transfer_spec(ix@),
{
    let mut accounts: Vec<String> = Vec::new();
    let mut i: usize = 0;
    while i < ix.accounts.len()
        invariant
            i <= ix.accounts@.len(),
            accounts@.len() == i,
            forall|j: int| 0 <= j < i ==> (#[trigger] accounts@[j])@ == bs58_encoding(ix.accounts@[j]@.pubkey),
        decreases ix.accounts@.len() - i,
    {
        let meta: &AccountMeta = &ix.accounts[i];
        accounts.push(b58_encode(meta.pubkey.bytes.as_slice()));
        i = i + 1;
    }
    let data = SolTransferData {
        program_id: b58_encode(ix.program_id.bytes.as_slice()),
        accounts,
        instruction_data: b64_encode(ix.data.as_slice()),
    };
    assert(data@.accounts =~= shape_sol_transfer_spec(ix@).accounts);
    data
}

} // verus!
