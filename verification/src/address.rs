//! Associated-token-account addresses.
//!
//! The address is a program-derived address: a SHA-256 search over bump
//! seeds for a hash that is no point of the Ed25519 curve. The search is the
//! work of `solana_sdk`'s public-key type and is named here by an
//! uninterpreted function; which seeds go into it is fixed in this module.

use vstd::prelude::*;
use crate::instruction::{token_program, token_program_id};
use crate::keys::PublicKey;

verus! {

/// The program-derived address that Solana's convention gives to `seeds`
/// under `program`: the first off-curve hash met when the bump seed runs
/// down from 255, or `None` where no bump seed gives one.
pub uninterp spec fn program_address(seeds: Seq<Seq<u8>>, program: Seq<u8>) -> Option<Seq<u8>>;

/// The bytes of the Associated-Token-Account program id
/// (`ATokenGPvbdGVxr1b2hvZbsiqW5xWH25efTNsLJA8knL`).
pub open spec fn associated_token_program() -> Seq<u8> {
    seq![
        140u8, 151, 37, 143, 78, 36, 137, 241, 187, 61, 16, 41, 20, 142, 13, 131,
        11, 90, 19, 153, 218, 255, 16, 132, 4, 142, 123, 216, 219, 233, 248, 89,
    ]
}

/// The address of the token account that holds `mint` for `owner`: the
/// program-derived address of the seeds `[owner, SPL-Token program id,
/// mint]` under the Associated-Token-Account program.
pub open spec fn derive_ata_spec(owner: Seq<u8>, mint: Seq<u8>) -> Option<Seq<u8>> {
    program_address(seq![owner, token_program(), mint], associated_token_program())
}

/// The Associated-Token-Account program id.
pub fn associated_token_program_id() -> (id: PublicKey)
    ensures
        id@ == associated_token_program(),
{
    let id = PublicKey {
        bytes: [
            140, 151, 37, 143, 78, 36, 137, 241, 187, 61, 16, 41, 20, 142, 13, 131,
            11, 90, 19, 153, 218, 255, 16, 132, 4, 142, 123, 216, 219, 233, 248, 89,
        ],
    };
    assert(id@ =~= associated_token_program());
    id
}

/// Calls `Pubkey::try_find_program_address` on three seeds and keeps the
/// address. Trusted: the result is the 32-byte address named by
/// `program_address`, and `None` exactly where that search finds none.
#[verifier::external_body]
pub(crate) fn find_program_address(
    first: &[u8; 32],
    second: &[u8; 32],
    third: &[u8; 32],
    program: &[u8; 32],
) -> (r: Option<[u8; 32]>)
    ensures
        match r {
            Some(address) => program_address(seq![first@, second@, third@], program@) == Some(
                address@,
            ),
            None => program_address(seq![first@, second@, third@], program@) is None,
        },
{
    solana_sdk::pubkey::Pubkey::try_find_program_address(
        &[first, second, third],
        &solana_sdk::pubkey::Pubkey::from(*program),
    ).map(|found| found.0.to_bytes())
}

/// Derives the associated token account of `owner` for `mint`. The result
/// depends on the two keys alone. `None` only where the bump-seed search
/// finds no address, which no known pair of keys does.
pub fn derive_ata(owner: &PublicKey, mint: &PublicKey) -> (r: Option<PublicKey>)
    ensures
        match derive_ata_spec(owner@, mint@) {
            Some(address) => r matches Some(key) && key@ == address,
            None => r is None,
        },
{
    let token = token_program_id();
    let program = associated_token_program_id();
    match find_program_address(&owner.bytes, &token.bytes, &mint.bytes, &program.bytes) {
        Some(bytes) => Some(PublicKey { bytes }),
        None => None,
    }
}

} // verus!
