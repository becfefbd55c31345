//! On-chain instructions and the builders for the four supported kinds.
//!
//! Each builder fixes the program id, the order and flags of the account
//! metas, and the byte layout of the payload.

use vstd::prelude::*;
use crate::keys::PublicKey;
use crate::layout::{le_u32, le_u64, push_bytes, push_le_u32, push_le_u64};

verus! {

/// The bytes of the System program id (`11111111111111111111111111111111`).
pub open spec fn system_program() -> Seq<u8> {
    Seq::new(32, |i: int| 0u8)
}

/// The bytes of the SPL-Token program id
/// (`TokenkegQfeZyiNwAJbNbGKPFXCWuBvf9Ss623VQ5DA`).
pub open spec fn token_program() -> Seq<u8> {
    seq![
        6u8, 221, 246, 225, 215, 101, 161, 147, 217, 203, 225, 70, 206, 235, 121, 172,
        28, 180, 133, 237, 95, 91, 55, 145, 58, 140, 245, 133, 126, 255, 0, 169,
    ]
}

/// The bytes of the Rent sysvar id
/// (`SysvarRent111111111111111111111111111111111`).
pub open spec fn rent_sysvar() -> Seq<u8> {
    seq![
        6u8, 167, 213, 23, 25, 44, 92, 81, 33, 140, 201, 76, 61, 74, 241, 127,
        88, 218, 238, 8, 155, 161, 253, 68, 227, 219, 217, 138, 0, 0, 0, 0,
    ]
}

/// The System program id.
pub fn system_program_id() -> (id: PublicKey)
    ensures
        id@ == system_program(),
{
    let id = PublicKey { bytes: [0u8; 32] };
    assert(id@ =~= system_program());
    id
}

/// The SPL-Token program id.
pub fn token_program_id() -> (id: PublicKey)
    ensures
        id@ == token_program(),
{
    let id = PublicKey {
        bytes: [
            6, 221, 246, 225, 215, 101, 161, 147, 217, 203, 225, 70, 206, 235, 121, 172,
            28, 180, 133, 237, 95, 91, 55, 145, 58, 140, 245, 133, 126, 255, 0, 169,
        ],
    };
    assert(id@ =~= token_program());
    id
}

/// The Rent sysvar id.
pub fn rent_sysvar_id() -> (id: PublicKey)
    ensures
        id@ == rent_sysvar(),
{
    let id = PublicKey {
        bytes: [
            6, 167, 213, 23, 25, 44, 92, 81, 33, 140, 201, 76, 61, 74, 241, 127,
            88, 218, 238, 8, 155, 161, 253, 68, 227, 219, 217, 138, 0, 0, 0, 0,
        ],
    };
    assert(id@ =~= rent_sysvar());
    id
}

/// One account that an instruction touches, with its access flags.
#[derive(Clone, Copy, Debug, PartialEq, Eq)]
pub struct AccountMeta {
    pub pubkey: PublicKey,
    pub is_signer: bool,
    pub is_writable: bool,
}

/// The mathematical value of an `AccountMeta`.
pub struct AccountMetaView {
    pub pubkey: Seq<u8>,
    pub is_signer: bool,
    pub is_writable: bool,
}

impl View for AccountMeta {
    type V = AccountMetaView;

    open spec fn view(&self) -> AccountMetaView {
        AccountMetaView {
            pubkey: self.pubkey@,
            is_signer: self.is_signer,
            is_writable: self.is_writable,
        }
    }
}

/// An instruction: the program to invoke, the accounts in the order the
/// program expects them, and the program's opaque payload.
#[derive(Clone, Debug, PartialEq, Eq)]
pub struct Instruction {
    pub program_id: PublicKey,
    pub accounts: Vec<AccountMeta>,
    pub data: Vec<u8>,
}

/// The mathematical value of an `Instruction`.
pub struct InstructionView {
    pub program_id: Seq<u8>,
    pub accounts: Seq<AccountMetaView>,
    pub data: Seq<u8>,
}

impl View for Instruction {
    type V = InstructionView;

    open spec fn view(&self) -> InstructionView {
        InstructionView {
            program_id: self.program_id@,
            accounts: self.accounts@.map_values(|meta: AccountMeta| meta@),
            data: self.data@,
        }
    }
}

/// A writable account.
pub open spec fn writable(pubkey: Seq<u8>, is_signer: bool) -> AccountMetaView {
    AccountMetaView { pubkey, is_signer, is_writable: true }
}

/// A read-only account.
pub open spec fn readonly(pubkey: Seq<u8>, is_signer: bool) -> AccountMetaView {
    AccountMetaView { pubkey, is_signer, is_writable: false }
}

/// SPL-Token `InitializeMint` without a freeze authority: the mint
/// (writable) and the Rent sysvar (read-only); payload tag `0`, the
/// decimals, the 32 bytes of the mint authority, and a `0` for the absent
/// freeze authority.
pub open spec fn initialize_mint_spec(
    mint: Seq<u8>,
    mint_authority: Seq<u8>,
    decimals: u8,
) -> InstructionView {
    InstructionView {
        program_id: token_program(),
        accounts: seq![writable(mint, false), readonly(rent_sysvar(), false)],
        data: seq![0u8, decimals] + mint_authority + seq![0u8],
    }
}

/// System-Program `Transfer`: the payer (signer, writable) and the payee
/// (writable); payload tag `2` as a little-endian `u32`, then the lamports
/// as a little-endian `u64`.
pub open spec fn system_transfer_spec(from: Seq<u8>, to: Seq<u8>, lamports: u64) -> InstructionView {
    InstructionView {
        program_id: system_program(),
        accounts: seq![writable(from, true), writable(to, false)],
        data: le_u32(2) + le_u64(lamports),
    }
}

/// SPL-Token `Transfer`: source and destination token accounts (writable)
/// and their owner (signer, read-only); payload tag `3`, then the amount as
/// a little-endian `u64`.
pub open spec fn spl_transfer_spec(
    source: Seq<u8>,
    destination: Seq<u8>,
    owner: Seq<u8>,
    amount: u64,
) -> InstructionView {
    InstructionView {
        program_id: token_program(),
        accounts: seq![writable(source, false), writable(destination, false), readonly(owner, true)],
        data: seq![3u8] + le_u64(amount),
    }
}

/// SPL-Token `MintTo`: the mint and the receiving token account (writable)
/// and the mint authority (signer, read-only); payload tag `7`, then the
/// amount as a little-endian `u64`.
pub open spec fn mint_to_spec(
    mint: Seq<u8>,
    destination: Seq<u8>,
    mint_authority: Seq<u8>,
    amount: u64,
) -> InstructionView {
    InstructionView {
        program_id: token_program(),
        accounts: seq![
            writable(mint, false),
            writable(destination, false),
            readonly(mint_authority, true),
        ],
        data: seq![7u8] + le_u64(amount),
    }
}

impl AccountMeta {
    /// A writable account.
    pub fn new(pubkey: PublicKey, is_signer: bool) -> (meta: AccountMeta)
        ensures
            meta@ == writable(pubkey@, is_signer),
    {
        AccountMeta { pubkey, is_signer, is_writable: true }
    }

    /// A read-only account.
    pub fn new_readonly(pubkey: PublicKey, is_signer: bool) -> (meta: AccountMeta)
        ensures
            meta@ == readonly(pubkey@, is_signer),
    {
        AccountMeta { pubkey, is_signer, is_writable: false }
    }
}

/// Builds the SPL-Token `InitializeMint` instruction for `mint`, with no
/// freeze authority.
pub fn initialize_mint(mint: &PublicKey, mint_authority: &PublicKey, decimals: u8) -> (ix:
    Instruction)
    ensures
        ix@ == initialize_mint_spec(mint@, mint_authority@, decimals),
{
    let mut accounts: Vec<AccountMeta> = Vec::new();
    accounts.push(AccountMeta::new(*mint, false));
    accounts.push(AccountMeta::new_readonly(rent_sysvar_id(), false));
    let mut data: Vec<u8> = Vec::new();
    data.push(0);
    data.push(decimals);
    push_bytes(&mut data, mint_authority.bytes.as_slice());
    data.push(0);
    let ix = Instruction { program_id: token_program_id(), accounts, data };
    proof {
        let want = initialize_mint_spec(mint@, mint_authority@, decimals);
        assert(ix@.accounts =~= want.accounts);
        assert(ix@.data =~= want.data);
    }
    ix
}

/// Builds the System-Program `Transfer` of `lamports` from `from` to `to`.
pub fn system_transfer(from: &PublicKey, to: &PublicKey, lamports: u64) -> (ix: Instruction)
    ensures
        ix@ == system_transfer_spec(from@, to@, lamports),
{
    let mut accounts: Vec<AccountMeta> = Vec::new();
    accounts.push(AccountMeta::new(*from, true));
    accounts.push(AccountMeta::new(*to, false));
    let mut data: Vec<u8> = Vec::new();
    push_le_u32(&mut data, 2);
    push_le_u64(&mut data, lamports);
    let ix = Instruction { program_id: system_program_id(), accounts, data };
    proof {
        let want = system_transfer_spec(from@, to@, lamports);
        assert(ix@.accounts =~= want.accounts);
        assert(ix@.data =~= want.data);
    }
    ix
}

/// Builds the SPL-Token `Transfer` of `amount` from token account `source`
/// to token account `destination`, signed by `owner` alone.
pub fn spl_transfer(
    source: &PublicKey,
    destination: &PublicKey,
    owner: &PublicKey,
    amount: u64,
) -> (ix: Instruction)
    ensures
        ix@ == spl_transfer_spec(source@, destination@, owner@, amount),
{
    let mut accounts: Vec<AccountMeta> = Vec::new();
    accounts.push(AccountMeta::new(*source, false));
    accounts.push(AccountMeta::new(*destination, false));
    accounts.push(AccountMeta::new_readonly(*owner, true));
    let mut data: Vec<u8> = Vec::new();
    data.push(3);
    push_le_u64(&mut data, amount);
    let ix = Instruction { program_id: token_program_id(), accounts, data };
    proof {
        let want = spl_transfer_spec(source@, destination@, owner@, amount);
        assert(ix@.accounts =~= want.accounts);
        assert(ix@.data =~= want.data);
    }
    ix
}

/// Builds the SPL-Token `MintTo` of `amount` of `mint` into token account
/// `destination`, signed by `mint_authority` alone.
pub fn mint_to(
    mint: &PublicKey,
    destination: &PublicKey,
    mint_authority: &PublicKey,
    amount: u64,
) -> (ix: Instruction)
    ensures
        ix@ == mint_to_spec(mint@, destination@, mint_authority@, amount),
{
    let mut accounts: Vec<AccountMeta> = Vec::new();
    accounts.push(AccountMeta::new(*mint, false));
    accounts.push(AccountMeta::new(*destination, false));
    accounts.push(AccountMeta::new_readonly(*mint_authority, true));
    let mut data: Vec<u8> = Vec::new();
    data.push(7);
    push_le_u64(&mut data, amount);
    let ix = Instruction { program_id: token_program_id(), accounts, data };
    proof {
        let want = mint_to_spec(mint@, destination@, mint_authority@, amount);
        assert(ix@.accounts =~= want.accounts);
        assert(ix@.data =~= want.data);
    }
    ix
}

} // verus!
