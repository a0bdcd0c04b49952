use pacifica::json::{parse_json, print_json};
use pacifica::order_payload::{CancelOrderPayload, CreateOrderPayload, EditOrderPayload};
use pacifica::signing::{
    canonical_message, public_key_from_key_bytes, public_key_from_keypair_text,
    signing_key_from_bytes, PacificaSigner, SignedAction, SigningError,
};

const SEED: [u8; 32] = [
    0x9d, 0x61, 0xb1, 0x9d, 0xef, 0xfd, 0x5a, 0x60, 0xba, 0x84, 0x4a, 0xf4, 0x92, 0xec, 0x2c, 0xc4,
    0x44, 0x49, 0xc5, 0x69, 0x7b, 0x32, 0x69, 0x19, 0x70, 0x3b, 0xac, 0x03, 0x1c, 0xae, 0x7f, 0x60,
];

const PUBLIC_KEY: [u8; 32] = [
    0xd7, 0x5a, 0x98, 0x01, 0x82, 0xb1, 0x0a, 0xb7, 0xd5, 0x4b, 0xfe, 0xd3, 0xc9, 0x64, 0x07, 0x3a,
    0x0e, 0xe1, 0x72, 0xf3, 0xda, 0xa6, 0x23, 0x25, 0xaf, 0x02, 0x1a, 0x68, 0xf7, 0x07, 0x51, 0x1a,
];

fn key_pair() -> Vec<u8> {
    let mut pair = SEED.to_vec();
    pair.extend_from_slice(&PUBLIC_KEY);
    pair
}

fn verifies(signature: &str, message: &str) -> bool {
    let bytes: [u8; 64] = bs58::decode(signature).into_vec().unwrap().try_into().unwrap();
    let key = ed25519_dalek::VerifyingKey::from_bytes(&PUBLIC_KEY).unwrap();
    let signature = ed25519_dalek::Signature::from_bytes(&bytes);
    ed25519_dalek::Verifier::verify(&key, message.as_bytes(), &signature).is_ok()
}

#[test]
fn create_order_is_signed_over_the_canonical_message() {
    let signer = PacificaSigner::from_key_bytes(&SEED, "acct", 5000).unwrap();
    let payload = CreateOrderPayload::new(
        "BTC",
        "100000.00",
        "0.001",
        "bid",
        "79f948fd-7556-4066-a128-083f3ea49322",
    );

    let canonical = signer.canonical_message("create_order", &payload, 1716200000000).unwrap();
    let signed = signer.sign_payload("create_order", &payload, 1716200000000).unwrap();

    assert_eq!(
        canonical,
        r#"{"data":{"amount":"0.001","client_order_id":"79f948fd-7556-4066-a128-083f3ea49322","price":"100000.00","reduce_only":false,"side":"bid","symbol":"BTC","tif":"ALO"},"expiry_window":5000,"timestamp":1716200000000,"type":"create_order"}"#
    );
    assert!(verifies(&signed.signature, &canonical));
    assert!(!verifies(&signed.signature, "something else"));
    let signature = signed.signature.clone();
    assert_eq!(
        print_json(signed.into_value()),
        format!(
            r#"{{"account":"acct","amount":"0.001","client_order_id":"79f948fd-7556-4066-a128-083f3ea49322","expiry_window":5000,"price":"100000.00","reduce_only":false,"side":"bid","signature":"{signature}","symbol":"BTC","tif":"ALO","timestamp":1716200000000}}"#
        )
    );
}

#[test]
fn cancel_and_edit_are_signed_alike() {
    let signer = PacificaSigner::from_key_bytes(&key_pair(), "acct", 7).unwrap();
    let cancel = CancelOrderPayload::new("BTC", "c");
    let edit = EditOrderPayload::new("BTC", "99500", "0.002", "c");

    let canonical = signer.canonical_message("cancel_order", &cancel, -1).unwrap();
    assert_eq!(
        canonical,
        r#"{"data":{"client_order_id":"c","symbol":"BTC"},"expiry_window":7,"timestamp":-1,"type":"cancel_order"}"#
    );
    assert!(verifies(&signer.sign_payload("cancel_order", &cancel, -1).unwrap().signature, &canonical));
    assert_eq!(
        canonical_message("edit_order", &edit, 3, 4).unwrap(),
        r#"{"data":{"amount":"0.002","client_order_id":"c","price":"99500","symbol":"BTC"},"expiry_window":4,"timestamp":3,"type":"edit_order"}"#
    );
}

#[test]
fn key_pair_signs_as_its_seed() {
    let seed = PacificaSigner::from_key_bytes(&SEED, "acct", 5000).unwrap();
    let pair = PacificaSigner::from_key_bytes(&key_pair(), "acct", 5000).unwrap();
    let payload = CancelOrderPayload::new("BTC", "c");

    assert_eq!(
        seed.sign_payload("cancel_order", &payload, 9).unwrap().signature,
        pair.sign_payload("cancel_order", &payload, 9).unwrap().signature
    );
    assert_eq!(
        public_key_from_key_bytes(&SEED).unwrap(),
        public_key_from_key_bytes(&key_pair()).unwrap()
    );
}

#[test]
fn key_loader_accepts_a_list_of_bytes() {
    let text = format!("{:?}", key_pair());

    assert!(PacificaSigner::from_json_uint8_keypair(&text, "acct", 5000).is_ok());
    let error = PacificaSigner::from_json_uint8_keypair("[300]", "acct", 5000).unwrap_err();
    assert!(matches!(error, SigningError::InvalidJson(_)));
    assert!(error.message().starts_with("invalid json key: invalid value: integer `300`"));
}

#[test]
fn key_loader_accepts_a_base58_key() {
    let text = bs58::encode(key_pair()).into_string();

    assert!(PacificaSigner::from_base58_keypair(&text, "acct", 5000).is_ok());
    let error = PacificaSigner::from_base58_keypair("0OIl", "acct", 5000).unwrap_err();
    assert!(matches!(error, SigningError::InvalidBase58(_)));
}

#[test]
fn public_key_derives_from_both_forms() {
    let expected = bs58::encode(PUBLIC_KEY).into_string();
    let list = format!("  {:?} ", SEED);
    let base58 = format!("\n{}\t", bs58::encode(key_pair()).into_string());

    assert_eq!(public_key_from_keypair_text(&list).unwrap(), expected);
    assert_eq!(public_key_from_keypair_text(&base58).unwrap(), expected);
}

#[test]
fn key_of_another_length_is_refused() {
    for len in [0usize, 31, 33, 63, 65] {
        let error = signing_key_from_bytes(&vec![1u8; len]).unwrap_err();
        assert_eq!(
            error.message(),
            format!("invalid key length: expected 32 or 64 bytes, got {len}")
        );
    }
}

#[test]
fn members_of_the_request_count_over_the_envelope() {
    let action = SignedAction {
        account: "acct".to_string(),
        signature: "s".to_string(),
        timestamp: 1,
        expiry_window: 2,
        payload: vec![
            ("account".to_string(), parse_json("true").unwrap()),
            ("zone".to_string(), parse_json("[1]").unwrap()),
        ],
    };

    assert_eq!(
        print_json(action.into_value()),
        r#"{"account":true,"expiry_window":2,"signature":"s","timestamp":1,"zone":[1]}"#
    );
}
