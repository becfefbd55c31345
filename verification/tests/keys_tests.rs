use sol_helper::keys::{bytes_equal, generate_keypair, sign, verify, Keypair, PublicKey, Signature};
use solana_sdk::signer::Signer;

fn hex(text: &str) -> Vec<u8> {
    (0..text.len() / 2).map(|i| u8::from_str_radix(&text[2 * i..2 * i + 2], 16).unwrap()).collect()
}

fn pair_of_seed(seed: &[u8]) -> Keypair {
    let sdk = solana_sdk::signature::Keypair::new_from_array(seed.try_into().unwrap());
    Keypair::from_bytes(&sdk.to_bytes()).unwrap()
}

#[test]
fn rfc_8032_first_vector() {
    let seed = hex("9d61b19deffd5a60ba844af492ec2cc44449c5697b326919703bac031cae7f60");
    let public = hex("d75a980182b10ab7d54bfed3c964073a0ee172f3daa62325af021a68f707511a");
    let mut secret = seed.clone();
    secret.extend_from_slice(&public);
    let pair = Keypair::from_bytes(&secret).unwrap();
    assert_eq!(pair.pubkey().bytes.to_vec(), public);
    let signature = sign(&pair, b"");
    assert_eq!(
        signature.bytes.to_vec(),
        hex("e5564300c360ac729086e2cc806e828a84877f1eb8e5d974d873e065224901555fb8821590a33bacc61e39701cf9b46bd25bf5f0595bbe24655141438e7a100b")
    );
    assert!(verify(&pair.pubkey(), b"", &signature));
}

#[test]
fn from_bytes_wants_sixty_four_consistent_bytes() {
    let seed: Vec<u8> = (1u8..=32).collect();
    let public: [u8; 32] = [
        121, 181, 86, 46, 143, 230, 84, 249, 64, 120, 177, 18, 232, 169, 139, 167, 144, 31, 133,
        58, 230, 149, 190, 215, 224, 227, 145, 11, 173, 4, 150, 100,
    ];
    let mut secret = seed.clone();
    secret.extend_from_slice(&public);
    let pair = Keypair::from_bytes(&secret).unwrap();
    assert_eq!(pair.to_bytes().to_vec(), secret);
    assert_eq!(pair.pubkey(), PublicKey::new(public));
    assert!(Keypair::from_bytes(&secret[..63]).is_none());
    assert!(Keypair::from_bytes(&[]).is_none());
    let mut wrong = secret.clone();
    wrong[40] ^= 1;
    assert!(Keypair::from_bytes(&wrong).is_none());
    let mut swapped = public.to_vec();
    swapped.extend_from_slice(&seed);
    assert!(Keypair::from_bytes(&swapped).is_none());
}

#[test]
fn a_new_pair_ends_in_its_public_key() {
    for _ in 0..8 {
        let pair = generate_keypair();
        let bytes = pair.to_bytes();
        assert_eq!(&bytes[32..], &pair.pubkey().bytes[..]);
        let sdk = solana_sdk::signature::Keypair::new_from_array(bytes[..32].try_into().unwrap());
        assert_eq!(sdk.pubkey().to_bytes(), pair.pubkey().bytes);
        assert!(Keypair::from_bytes(&bytes).is_some());
    }
}

#[test]
fn new_pairs_differ() {
    let a = generate_keypair().to_bytes();
    let b = generate_keypair().to_bytes();
    assert_ne!(a.to_vec(), b.to_vec());
}

#[test]
fn what_a_pair_signs_its_public_key_accepts() {
    let messages: Vec<Vec<u8>> = vec![
        vec![],
        b"hello".to_vec(),
        vec![0; 1],
        vec![0xff; 300],
        "caf\u{e9} \u{1f600}".as_bytes().to_vec(),
    ];
    for seed_byte in [0u8, 1, 7, 200, 255] {
        let pair = pair_of_seed(&[seed_byte; 32]);
        for message in &messages {
            let signature = sign(&pair, message);
            assert!(verify(&pair.pubkey(), message, &signature));
        }
    }
    for _ in 0..4 {
        let pair = generate_keypair();
        let signature = sign(&pair, b"fresh");
        assert!(verify(&pair.pubkey(), b"fresh", &signature));
    }
}

#[test]
fn another_key_rejects_the_signature() {
    let first = pair_of_seed(&[1; 32]);
    let second = pair_of_seed(&[2; 32]);
    let signature = sign(&first, b"hello");
    assert!(!verify(&second.pubkey(), b"hello", &signature));
    let signature = sign(&second, b"hello");
    assert!(!verify(&first.pubkey(), b"hello", &signature));
}

#[test]
fn a_flipped_bit_in_the_message_is_rejected() {
    let pair = pair_of_seed(&[9; 32]);
    let message = b"pay 10 to bob".to_vec();
    let signature = sign(&pair, &message);
    for byte in 0..message.len() {
        for bit in 0..8 {
            let mut changed = message.clone();
            changed[byte] ^= 1 << bit;
            assert!(!verify(&pair.pubkey(), &changed, &signature));
        }
    }
    assert!(!verify(&pair.pubkey(), b"pay 10 to bobX", &signature));
    assert!(!verify(&pair.pubkey(), b"", &signature));
}

#[test]
fn a_flipped_bit_in_the_signature_is_rejected() {
    let pair = pair_of_seed(&[9; 32]);
    let signature = sign(&pair, b"hello");
    for byte in 0..64 {
        for bit in 0..8 {
            let mut changed = signature.bytes;
            changed[byte] ^= 1 << bit;
            assert!(!verify(&pair.pubkey(), b"hello", &Signature::new(changed)));
        }
    }
}

#[test]
fn verify_answers_false_on_what_is_no_key_or_signature() {
    let pair = pair_of_seed(&[3; 32]);
    let signature = sign(&pair, b"m");
    // a point off the curve
    let off = PublicKey::from_slice(
        &bs58::decode("9z5nJyQar1FUxVJxpBXzon6kHehbomeYiDaLi9WAMhCq").into_vec().unwrap(),
    ).unwrap();
    assert!(!verify(&off, b"m", &signature));
    assert!(!verify(&PublicKey::new([0; 32]), b"m", &signature));
    assert!(!verify(&PublicKey::new([255; 32]), b"m", &signature));
    assert!(!verify(&pair.pubkey(), b"m", &Signature::new([0; 64])));
    assert!(!verify(&pair.pubkey(), b"m", &Signature::new([255; 64])));
}

#[test]
fn signing_is_a_function_of_pair_and_message() {
    let pair = pair_of_seed(&(1u8..=32).collect::<Vec<u8>>());
    let first = sign(&pair, b"hello");
    let second = sign(&pair, b"hello");
    assert_eq!(first, second);
    let want: [u8; 64] = [
        105, 112, 218, 213, 100, 217, 64, 223, 144, 23, 162, 36, 49, 188, 45, 82, 250, 224, 181,
        108, 224, 123, 134, 15, 190, 56, 25, 254, 113, 40, 101, 60, 203, 76, 230, 192, 90, 239, 1,
        65, 232, 75, 20, 40, 204, 98, 137, 253, 110, 29, 90, 9, 65, 226, 0, 95, 77, 254, 83, 76,
        219, 177, 153, 14,
    ];
    assert_eq!(first.bytes, want);
    assert_ne!(sign(&pair, b"hellp").bytes, want);
}

#[test]
fn signing_agrees_with_the_sdk() {
    for seed_byte in [0u8, 5, 99] {
        let sdk = solana_sdk::signature::Keypair::new_from_array([seed_byte; 32]);
        let pair = Keypair::from_bytes(&sdk.to_bytes()).unwrap();
        for message in [&b""[..], &b"hello"[..], &[0u8; 100][..]] {
            let theirs: [u8; 64] = sdk.sign_message(message).into();
            assert_eq!(sign(&pair, message).bytes, theirs);
            let sig = solana_sdk::signature::Signature::from(theirs);
            assert_eq!(
                verify(&pair.pubkey(), message, &Signature::new(theirs)),
                sig.verify(&sdk.pubkey().to_bytes(), message)
            );
        }
    }
}

#[test]
fn keys_and_signatures_from_slices() {
    assert_eq!(PublicKey::from_slice(&[5; 32]), Some(PublicKey::new([5; 32])));
    assert_eq!(PublicKey::from_slice(&[5; 31]), None);
    assert_eq!(PublicKey::from_slice(&[5; 33]), None);
    assert_eq!(PublicKey::from_slice(&[]), None);
    assert_eq!(PublicKey::new([5; 32]).to_bytes(), [5; 32]);
    assert_eq!(Signature::from_slice(&[6; 64]), Some(Signature::new([6; 64])));
    assert_eq!(Signature::from_slice(&[6; 63]), None);
    assert_eq!(Signature::from_slice(&[6; 65]), None);
    assert_eq!(Signature::new([6; 64]).to_bytes(), [6; 64]);
}

#[test]
fn keys_are_equal_when_their_bytes_are() {
    let a = PublicKey::new([1; 32]);
    let mut other = [1u8; 32];
    other[31] = 2;
    let b = PublicKey::new(other);
    assert!(a.same_as(&a));
    assert!(a.same_as(&PublicKey::new([1; 32])));
    assert!(!a.same_as(&b));
    assert_eq!(a, PublicKey::new([1; 32]));
    assert_ne!(a, b);
}

#[test]
fn byte_strings_compare_by_content() {
    assert!(bytes_equal(&[], &[]));
    assert!(bytes_equal(&[1, 2, 3], &[1, 2, 3]));
    assert!(!bytes_equal(&[1, 2, 3], &[1, 2, 4]));
    assert!(!bytes_equal(&[1, 2, 3], &[1, 2]));
    assert!(!bytes_equal(&[], &[0]));
    assert!(!bytes_equal(&[9, 2, 3], &[1, 2, 3]));
}
