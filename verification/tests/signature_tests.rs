use inheritx_backend::signature::{
    verify, verify_encoded, wallet_key, PUBLIC_KEY_BYTES, SIGNATURE_BYTES,
};
use inheritx_backend::text::same_text;
use ring::signature::{Ed25519KeyPair, KeyPair};

const SEED_ONE: &str = "9d61b19deffd5a60ba844af492ec2cc44449c5697b326919703bac031cae7f60";
const WALLET_ONE: &str = "d75a980182b10ab7d54bfed3c964073a0ee172f3daa62325af021a68f707511a";
const SIGNATURE_ONE: &str = "e5564300c360ac729086e2cc806e828a84877f1eb8e5d974d873e065224901555fb8821590a33bacc61e39701cf9b46bd25bf5f0595bbe24655141438e7a100b";

const SEED_TWO: &str = "4ccd089b28ff96da9db6c346ec114e0f5b8a319f35aba624da8cf6ed4fb8a6fb";
const WALLET_TWO: &str = "3d4017c3e843895a92b70aa74d1b7ebc9c982ccf2ec4968cc0cd55f12af4660c";
const SIGNATURE_TWO: &str = "92a009a9f0d4cab8720e820b5f642540a2b27b5416503f8fb3762223ebdb69da085ac1e43e15996e458f3613d0f11d8c387b2eaeb4302aeeb00d291612bb0c00";

fn keypair_from(seed_hex: &str) -> Ed25519KeyPair {
    Ed25519KeyPair::from_seed_unchecked(&hex::decode(seed_hex).unwrap()).unwrap()
}

#[test]
fn lengths_are_those_of_ed25519() {
    assert_eq!(PUBLIC_KEY_BYTES, 32);
    assert_eq!(SIGNATURE_BYTES, 64);
}

#[test]
fn known_signatures_verify() {
    assert!(verify(WALLET_ONE, b"", &hex::decode(SIGNATURE_ONE).unwrap()));
    assert!(verify(WALLET_TWO, &[0x72], &hex::decode(SIGNATURE_TWO).unwrap()));
    assert!(verify_encoded(WALLET_ONE, b"", SIGNATURE_ONE));
    assert!(verify_encoded(WALLET_TWO, b"r", SIGNATURE_TWO));
}

#[test]
fn known_keys_sign_as_expected() {
    let one = keypair_from(SEED_ONE);
    assert_eq!(hex::encode(one.public_key().as_ref()), WALLET_ONE);
    assert_eq!(hex::encode(one.sign(b"").as_ref()), SIGNATURE_ONE);
    let two = keypair_from(SEED_TWO);
    assert_eq!(hex::encode(two.public_key().as_ref()), WALLET_TWO);
    assert_eq!(hex::encode(two.sign(&[0x72]).as_ref()), SIGNATURE_TWO);
}

#[test]
fn signature_over_another_message_is_refused() {
    let signature = hex::decode(SIGNATURE_TWO).unwrap();
    assert!(!verify(WALLET_TWO, b"", &signature));
    assert!(!verify(WALLET_TWO, b"R", &signature));
    assert!(!verify(WALLET_TWO, b"r ", &signature));
    assert!(!verify(WALLET_TWO, b"rr", &signature));
}

#[test]
fn signature_under_another_key_is_refused() {
    assert!(!verify(WALLET_ONE, &[0x72], &hex::decode(SIGNATURE_TWO).unwrap()));
    assert!(!verify(WALLET_TWO, b"", &hex::decode(SIGNATURE_ONE).unwrap()));
}

#[test]
fn altered_signature_is_refused() {
    let good = hex::decode(SIGNATURE_ONE).unwrap();
    for position in [0, 17, 31, 32, 63] {
        let mut altered = good.clone();
        altered[position] ^= 0x01;
        assert!(!verify(WALLET_ONE, b"", &altered));
    }
}

#[test]
fn signature_of_wrong_length_is_refused() {
    let good = hex::decode(SIGNATURE_ONE).unwrap();
    assert!(!verify(WALLET_ONE, b"", &[]));
    assert!(!verify(WALLET_ONE, b"", &good[..63]));
    let mut longer = good.clone();
    longer.push(0);
    assert!(!verify(WALLET_ONE, b"", &longer));
    assert!(verify(WALLET_ONE, b"", &good));
}

#[test]
fn malformed_wallet_verifies_nothing() {
    let signature = hex::decode(SIGNATURE_ONE).unwrap();
    let short = &WALLET_ONE[..62];
    let odd = &WALLET_ONE[..63];
    let long = format!("{}00", WALLET_ONE);
    let not_hex = format!("g{}", &WALLET_ONE[1..]);
    let spaced = format!(" {}", &WALLET_ONE[1..]);
    let prefixed = format!("0x{}", &WALLET_ONE[2..]);
    for wallet in ["", short, odd, long.as_str(), not_hex.as_str(), spaced.as_str(), prefixed.as_str()] {
        assert!(!verify(wallet, b"", &signature));
        assert!(!verify_encoded(wallet, b"", SIGNATURE_ONE));
    }
}

#[test]
fn bytes_that_are_no_curve_point_verify_nothing() {
    let wallet = "ff".repeat(32);
    assert!(wallet_key(&wallet).is_some());
    assert!(!verify(&wallet, b"", &hex::decode(SIGNATURE_ONE).unwrap()));
    assert!(!verify(&wallet, b"", &[0u8; 64]));
}

#[test]
fn wallet_in_upper_case_names_the_same_key() {
    let upper = WALLET_ONE.to_uppercase();
    assert_eq!(wallet_key(&upper), wallet_key(WALLET_ONE));
    assert!(verify(&upper, b"", &hex::decode(SIGNATURE_ONE).unwrap()));
    assert!(verify_encoded(&upper, b"", &SIGNATURE_ONE.to_uppercase()));
}

#[test]
fn wallet_key_decodes_each_pair_of_digits() {
    let wallet = "000102030405060708090a0b0c0d0e0f101112131415161718191A1B1C1D1E1F";
    let expected: Vec<u8> = (0u8..32).collect();
    assert_eq!(wallet_key(wallet), Some(expected));
    assert_eq!(
        wallet_key(WALLET_TWO).unwrap()[..4],
        [0x3d, 0x40, 0x17, 0xc3]
    );
    assert_eq!(wallet_key(&"f0".repeat(32)), Some(vec![0xf0; 32]));
    assert_eq!(wallet_key(&"0f".repeat(32)), Some(vec![0x0f; 32]));
}

#[test]
fn wallet_key_refuses_what_names_no_key() {
    assert_eq!(wallet_key(""), None);
    assert_eq!(wallet_key("00"), None);
    assert_eq!(wallet_key(&"0".repeat(63)), None);
    assert_eq!(wallet_key(&"0".repeat(65)), None);
    assert_eq!(wallet_key(&"0".repeat(66)), None);
    assert_eq!(wallet_key(&"g".repeat(64)), None);
    assert_eq!(wallet_key(&"\u{e9}".repeat(32)), None);
    assert_eq!(wallet_key(&"\u{e9}".repeat(64)), None);
    assert!(wallet_key(&"0".repeat(64)).is_some());
}

#[test]
fn encoded_signature_must_be_hexadecimal() {
    assert!(!verify_encoded(WALLET_ONE, b"", ""));
    assert!(!verify_encoded(WALLET_ONE, b"", &SIGNATURE_ONE[..127]));
    assert!(!verify_encoded(WALLET_ONE, b"", &format!("{}zz", &SIGNATURE_ONE[..126])));
    assert!(!verify_encoded(WALLET_ONE, b"", &format!("0x{}", SIGNATURE_ONE)));
    assert!(!verify_encoded(WALLET_ONE, b"", &format!("{} ", SIGNATURE_ONE)));
}

#[test]
fn verification_can_be_repeated() {
    let signature = hex::decode(SIGNATURE_TWO).unwrap();
    for _ in 0..10 {
        assert!(verify(WALLET_TWO, &[0x72], &signature));
        assert!(!verify(WALLET_ONE, &[0x72], &signature));
    }
}

#[test]
fn same_text_compares_character_by_character() {
    assert!(same_text("", ""));
    assert!(same_text("Monthly", "Monthly"));
    assert!(!same_text("Monthly", "monthly"));
    assert!(!same_text("Monthly", "Monthly "));
    assert!(!same_text("", " "));
    assert!(same_text("caf\u{e9}", "caf\u{e9}"));
    assert!(!same_text("caf\u{e9}", "cafe\u{301}"));
    assert!(!same_text("ab", "ba"));
}
