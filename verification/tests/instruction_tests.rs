use sol_helper::instruction::{
    initialize_mint, mint_to, rent_sysvar_id, spl_transfer, system_program_id, system_transfer,
    token_program_id, AccountMeta, Instruction,
};
use sol_helper::keys::PublicKey;
use solana_sdk::pubkey::Pubkey;

fn key(fill: u8) -> PublicKey {
    PublicKey::new([fill; 32])
}

fn sdk(key: &PublicKey) -> Pubkey {
    Pubkey::from(key.bytes)
}

fn same(ours: &Instruction, theirs: &solana_sdk::instruction::Instruction) {
    assert_eq!(ours.program_id.bytes, theirs.program_id.to_bytes());
    assert_eq!(ours.data, theirs.data);
    assert_eq!(ours.accounts.len(), theirs.accounts.len());
    for (a, b) in ours.accounts.iter().zip(theirs.accounts.iter()) {
        assert_eq!(a.pubkey.bytes, b.pubkey.to_bytes());
        assert_eq!(a.is_signer, b.is_signer);
        assert_eq!(a.is_writable, b.is_writable);
    }
}

#[test]
fn program_ids_are_the_published_ones() {
    assert_eq!(system_program_id().bytes, [0u8; 32]);
    assert_eq!(system_program_id().bytes, solana_sdk::system_program::id().to_bytes());
    assert_eq!(token_program_id().bytes, spl_token::id().to_bytes());
    assert_eq!(rent_sysvar_id().bytes, solana_sdk::sysvar::rent::id().to_bytes());
    assert_eq!(
        bs58::encode(token_program_id().bytes).into_string(),
        "TokenkegQfeZyiNwAJbNbGKPFXCWuBvf9Ss623VQ5DA"
    );
    assert_eq!(
        bs58::encode(rent_sysvar_id().bytes).into_string(),
        "SysvarRent111111111111111111111111111111111"
    );
}

#[test]
fn account_metas_carry_their_flags() {
    let k = key(4);
    assert_eq!(AccountMeta::new(k, true), AccountMeta { pubkey: k, is_signer: true, is_writable: true });
    assert_eq!(AccountMeta::new(k, false), AccountMeta { pubkey: k, is_signer: false, is_writable: true });
    assert_eq!(
        AccountMeta::new_readonly(k, true),
        AccountMeta { pubkey: k, is_signer: true, is_writable: false }
    );
    assert_eq!(
        AccountMeta::new_readonly(k, false),
        AccountMeta { pubkey: k, is_signer: false, is_writable: false }
    );
}

#[test]
fn initialize_mint_layout() {
    let ix = initialize_mint(&key(1), &key(2), 9);
    assert_eq!(ix.program_id, token_program_id());
    assert_eq!(
        ix.accounts,
        vec![
            AccountMeta { pubkey: key(1), is_signer: false, is_writable: true },
            AccountMeta { pubkey: rent_sysvar_id(), is_signer: false, is_writable: false },
        ]
    );
    let mut data = vec![0u8, 9];
    data.extend_from_slice(&[2; 32]);
    data.push(0);
    assert_eq!(ix.data, data);
    assert_eq!(ix.data.len(), 35);
}

#[test]
fn initialize_mint_agrees_with_the_token_crate() {
    for (mint, authority, decimals) in [(1u8, 2u8, 0u8), (3, 3, 9), (0, 255, 255), (200, 100, 6)] {
        let ours = initialize_mint(&key(mint), &key(authority), decimals);
        let theirs = spl_token::instruction::initialize_mint(
            &spl_token::id(),
            &sdk(&key(mint)),
            &sdk(&key(authority)),
            None,
            decimals,
        ).unwrap();
        same(&ours, &theirs);
    }
}

#[test]
fn system_transfer_layout() {
    let ix = system_transfer(&key(1), &key(2), 1000);
    assert_eq!(ix.program_id, system_program_id());
    assert_eq!(
        ix.accounts,
        vec![
            AccountMeta { pubkey: key(1), is_signer: true, is_writable: true },
            AccountMeta { pubkey: key(2), is_signer: false, is_writable: true },
        ]
    );
    assert_eq!(ix.data, vec![0x02, 0, 0, 0, 0xE8, 0x03, 0, 0, 0, 0, 0, 0]);
}

#[test]
fn system_transfer_agrees_with_the_sdk() {
    for (from, to, lamports) in [(1u8, 2u8, 0u64), (1, 1, 1), (9, 8, 1000), (0, 255, u64::MAX), (7, 3, 1_000_000_000)] {
        let ours = system_transfer(&key(from), &key(to), lamports);
        let theirs = solana_program::example_mocks::solana_sdk::system_instruction::transfer(
            &sdk(&key(from)),
            &sdk(&key(to)),
            lamports,
        );
        same(&ours, &theirs);
    }
}

#[test]
fn spl_transfer_layout() {
    let ix = spl_transfer(&key(1), &key(2), &key(3), 258);
    assert_eq!(ix.program_id, token_program_id());
    assert_eq!(
        ix.accounts,
        vec![
            AccountMeta { pubkey: key(1), is_signer: false, is_writable: true },
            AccountMeta { pubkey: key(2), is_signer: false, is_writable: true },
            AccountMeta { pubkey: key(3), is_signer: true, is_writable: false },
        ]
    );
    assert_eq!(ix.data, vec![3, 2, 1, 0, 0, 0, 0, 0, 0]);
}

#[test]
fn spl_transfer_agrees_with_the_token_crate() {
    for (source, target, owner, amount) in [(1u8, 2u8, 3u8, 0u64), (4, 4, 4, 1), (9, 8, 7, u64::MAX), (0, 1, 2, 123_456_789)] {
        let ours = spl_transfer(&key(source), &key(target), &key(owner), amount);
        let theirs = spl_token::instruction::transfer(
            &spl_token::id(),
            &sdk(&key(source)),
            &sdk(&key(target)),
            &sdk(&key(owner)),
            &[],
            amount,
        ).unwrap();
        same(&ours, &theirs);
    }
}

#[test]
fn mint_to_layout() {
    let ix = mint_to(&key(1), &key(2), &key(3), 1_000_000);
    assert_eq!(ix.program_id, token_program_id());
    assert_eq!(
        ix.accounts,
        vec![
            AccountMeta { pubkey: key(1), is_signer: false, is_writable: true },
            AccountMeta { pubkey: key(2), is_signer: false, is_writable: true },
            AccountMeta { pubkey: key(3), is_signer: true, is_writable: false },
        ]
    );
    assert_eq!(ix.data, vec![7, 0x40, 0x42, 0x0F, 0, 0, 0, 0, 0]);
}

#[test]
fn mint_to_agrees_with_the_token_crate() {
    for (mint, account, authority, amount) in [(1u8, 2u8, 3u8, 0u64), (4, 4, 4, 1), (9, 8, 7, u64::MAX), (0, 1, 2, 42)] {
        let ours = mint_to(&key(mint), &key(account), &key(authority), amount);
        let theirs = spl_token::instruction::mint_to(
            &spl_token::id(),
            &sdk(&key(mint)),
            &sdk(&key(account)),
            &sdk(&key(authority)),
            &[],
            amount,
        ).unwrap();
        same(&ours, &theirs);
    }
}
