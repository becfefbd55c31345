use sol_helper::codec::b64_decode;
use sol_helper::error::{
    Builder, Field, ServiceError, STATUS_BAD_REQUEST, STATUS_METHOD_NOT_ALLOWED, STATUS_OK,
};
use sol_helper::instruction::{initialize_mint, spl_transfer, system_transfer};
use sol_helper::keys::PublicKey;
use sol_helper::reply::{
    failure, shape_instruction, shape_sol_transfer, shape_token_transfer, success,
    AccountMetaInfo, KeypairData, ReplyData, Response, SendTokenResponse,
};

fn key(fill: u8) -> PublicKey {
    PublicKey::new([fill; 32])
}

const THREE: &str = "CktRuQ2mttgRGkXJtyksdKHjUdc2C4TgDzyB98oEzy8";
const FOUR: &str = "GgBaCs3NCBuZN12kCJgAW63ydqohFkHEdfdEXBPzLHq";
const TOKEN: &str = "TokenkegQfeZyiNwAJbNbGKPFXCWuBvf9Ss623VQ5DA";
const RENT: &str = "SysvarRent111111111111111111111111111111111";
const SYSTEM: &str = "11111111111111111111111111111111";

#[test]
fn every_error_has_its_text() {
    let cases = [
        (ServiceError::MissingField, "Missing required fields"),
        (ServiceError::InvalidAddress(Field::Mint), "Invalid mint address"),
        (ServiceError::InvalidAddress(Field::MintAuthority), "Invalid mint authority address"),
        (ServiceError::InvalidAddress(Field::Authority), "Invalid authority address"),
        (ServiceError::InvalidAddress(Field::Destination), "Invalid destination address"),
        (ServiceError::InvalidAddress(Field::Owner), "Invalid owner address"),
        (ServiceError::InvalidAddress(Field::From), "Invalid from address"),
        (ServiceError::InvalidAddress(Field::To), "Invalid to address"),
        (ServiceError::InvalidAddress(Field::PublicKey), "Invalid public key"),
        (ServiceError::InvalidSecret, "Invalid secret key"),
        (ServiceError::InvalidSignatureEncoding, "Invalid signature encoding"),
        (ServiceError::InvalidSignatureFormat, "Invalid signature format"),
        (ServiceError::BuildFailed(Builder::InitializeMint), "Failed to build InitializeMint instruction"),
        (ServiceError::BuildFailed(Builder::Transfer), "Failed to build transfer instruction"),
        (ServiceError::BuildFailed(Builder::MintTo), "Failed to build mint_to instruction"),
        (ServiceError::MethodNotAllowed, "Method not allowed"),
    ];
    for (error, text) in cases {
        assert_eq!(error.message(), text);
    }
}

#[test]
fn every_error_has_its_status() {
    assert_eq!(STATUS_OK, 200);
    assert_eq!(STATUS_BAD_REQUEST, 400);
    assert_eq!(STATUS_METHOD_NOT_ALLOWED, 405);
    assert_eq!(ServiceError::MethodNotAllowed.status(), 405);
    for error in [
        ServiceError::MissingField,
        ServiceError::InvalidAddress(Field::Mint),
        ServiceError::InvalidAddress(Field::To),
        ServiceError::InvalidSecret,
        ServiceError::InvalidSignatureEncoding,
        ServiceError::InvalidSignatureFormat,
        ServiceError::BuildFailed(Builder::Transfer),
    ] {
        assert_eq!(error.status(), 400);
    }
}

#[test]
fn failure_wraps_the_text_with_success_cleared() {
    assert_eq!(
        failure(ServiceError::InvalidSecret),
        (400, Response::Error { success: false, error: "Invalid secret key".to_string() })
    );
    assert_eq!(
        failure(ServiceError::MethodNotAllowed),
        (405, Response::Error { success: false, error: "Method not allowed".to_string() })
    );
}

#[test]
fn success_wraps_the_data_with_success_set() {
    let data = ReplyData::Keypair(KeypairData { pubkey: "p".to_string(), secret: "s".to_string() });
    assert_eq!(success(data.clone()), (200, Response::Success { success: true, data }));
}

#[test]
fn instructions_are_shaped_with_both_flags() {
    let data = shape_instruction(&initialize_mint(&key(3), &key(4), 9));
    assert_eq!(data.program_id, TOKEN);
    assert_eq!(
        data.accounts,
        vec![
            AccountMetaInfo { pubkey: THREE.to_string(), is_signer: false, is_writable: true },
            AccountMetaInfo { pubkey: RENT.to_string(), is_signer: false, is_writable: false },
        ]
    );
    let mut payload = vec![0u8, 9];
    payload.extend_from_slice(&[4; 32]);
    payload.push(0);
    assert_eq!(b64_decode(&data.instruction_data), Ok(payload));
}

#[test]
fn token_transfers_are_shaped_with_the_signer_flag_alone() {
    let data = shape_token_transfer(&spl_transfer(&key(3), &key(4), &key(3), 5));
    assert_eq!(data.program_id, TOKEN);
    assert_eq!(
        data.accounts,
        vec![
            SendTokenResponse { pubkey: THREE.to_string(), is_signer: false },
            SendTokenResponse { pubkey: FOUR.to_string(), is_signer: false },
            SendTokenResponse { pubkey: THREE.to_string(), is_signer: true },
        ]
    );
    assert_eq!(data.instruction_data, "AwUAAAAAAAAA");
}

#[test]
fn lamport_transfers_are_shaped_with_bare_keys() {
    let data = shape_sol_transfer(&system_transfer(&key(3), &key(4), 1000));
    assert_eq!(data.program_id, SYSTEM);
    assert_eq!(data.accounts, vec![THREE.to_string(), FOUR.to_string()]);
    assert_eq!(data.instruction_data, "AgAAAOgDAAAAAAAA");
}
