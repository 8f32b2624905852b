use ghb::signature::verify_signature;
use hmac::Mac;

fn sign(secret: &str, payload: &[u8]) -> String {
    let mut mac = hmac::Hmac::<sha2::Sha256>::new_from_slice(secret.as_bytes()).unwrap();
    mac.update(payload);
    format!("sha256={}", hex::encode(mac.finalize().into_bytes()))
}

#[test]
fn known_vector_is_accepted() {
    let payload = b"Hello, World!".to_vec();
    let sig = "sha256=757107ea0eb2509fc211221cce984b8a37570b6d7586c22c46f4379c8b043e17";
    assert!(verify_signature(payload, sig, "It's a Secret to Everybody"));
}

#[test]
fn signed_payload_round_trips() {
    let payload = br#"{"action":"created","zen":"Keep it logically awesome."}"#.to_vec();
    let sig = sign("s3cret", &payload);
    assert!(verify_signature(payload, &sig, "s3cret"));
}

#[test]
fn empty_payload_and_secret_round_trip() {
    let sig = sign("", b"");
    assert!(verify_signature(Vec::new(), &sig, ""));
}

#[test]
fn payload_bit_flip_is_refused() {
    let payload = b"{\"a\":1}".to_vec();
    let sig = sign("k", &payload);
    let mut flipped = payload.clone();
    flipped[2] ^= 0x01;
    assert!(!verify_signature(flipped, &sig, "k"));
}

#[test]
fn signature_bit_flip_is_refused() {
    let payload = b"{\"a\":1}".to_vec();
    let sig = sign("k", &payload);
    let mut bytes = sig.clone().into_bytes();
    let last = bytes.len() - 1;
    bytes[last] ^= 0x01;
    let flipped = String::from_utf8(bytes).unwrap();
    assert!(!verify_signature(payload, &flipped, "k"));
}

#[test]
fn wrong_secret_missing_tag_and_empty_header_are_refused() {
    let payload = b"body".to_vec();
    let sig = sign("right", &payload);
    assert!(!verify_signature(payload.clone(), &sig, "wrong"));
    assert!(!verify_signature(payload.clone(), &sig["sha256=".len()..], "right"));
    assert!(!verify_signature(payload.clone(), &sig.to_uppercase(), "right"));
    assert!(!verify_signature(payload, "", "right"));
}
