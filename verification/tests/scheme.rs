use ed25519_dalek::{Keypair, PublicKey, SecretKey, Signer};
use webhook_auth::error::{AuthError, KeyError};
use webhook_auth::scheme::{Signature, VerificationKey, PUBLIC_KEY_LENGTH, SIGNATURE_LENGTH};

fn scheme_keypair(seed: u8) -> Keypair {
    let secret = SecretKey::from_bytes(&[seed; 32]).unwrap();
    let public = PublicKey::from(&secret);
    Keypair { secret, public }
}

#[test]
fn lengths_are_those_of_the_scheme() {
    assert_eq!(PUBLIC_KEY_LENGTH, 32);
    assert_eq!(SIGNATURE_LENGTH, 64);
    assert_eq!(PUBLIC_KEY_LENGTH, ed25519_dalek::PUBLIC_KEY_LENGTH);
    assert_eq!(SIGNATURE_LENGTH, ed25519_dalek::SIGNATURE_LENGTH);
}

#[test]
fn signature_from_hex_decodes_pairs_of_digits() {
    let mut text = String::new();
    for i in 0..64u32 {
        text.push_str(&format!("{:02x}", i % 32));
    }
    let signature = Signature::from_hex(text.as_bytes()).unwrap();
    let expected: Vec<u8> = (0..64u8).map(|i| i % 32).collect();
    assert_eq!(signature.as_bytes(), expected.as_slice());
    assert_eq!(signature.as_bytes().len(), 64);
}

#[test]
fn signature_from_hex_takes_both_cases() {
    let lower = "ab".repeat(63) + "0f";
    let upper = "AB".repeat(63) + "0F";
    let mixed = "aB".repeat(63) + "0f";
    let mut expected = vec![0xabu8; 63];
    expected.push(0x0f);
    assert_eq!(Signature::from_hex(lower.as_bytes()).unwrap().as_bytes(), expected.as_slice());
    assert_eq!(Signature::from_hex(upper.as_bytes()).unwrap().as_bytes(), expected.as_slice());
    assert_eq!(Signature::from_hex(mixed.as_bytes()).unwrap().as_bytes(), expected.as_slice());
}

#[test]
fn signature_from_hex_rejects_odd_length() {
    let text = "0".repeat(127);
    assert_eq!(
        Signature::from_hex(text.as_bytes()),
        Err(AuthError::MalformedSignatureEncoding)
    );
}

#[test]
fn signature_from_hex_rejects_other_characters() {
    for bad in ["g", "G", "/", ":", "@", "`", " ", "\n"] {
        let text = "0".repeat(127) + bad;
        assert_eq!(
            Signature::from_hex(text.as_bytes()),
            Err(AuthError::MalformedSignatureEncoding)
        );
    }
    let not_text = vec![0xffu8; 128];
    assert_eq!(
        Signature::from_hex(&not_text),
        Err(AuthError::MalformedSignatureEncoding)
    );
}

#[test]
fn signature_from_hex_tells_wrong_length_from_bad_text() {
    assert_eq!(Signature::from_hex(b""), Err(AuthError::MalformedSignature));
    assert_eq!(
        Signature::from_hex("00".repeat(63).as_bytes()),
        Err(AuthError::MalformedSignature)
    );
    assert_eq!(
        Signature::from_hex("00".repeat(65).as_bytes()),
        Err(AuthError::MalformedSignature)
    );
}

#[test]
fn signature_from_bytes_checks_the_top_bits_of_the_last_byte() {
    let mut bytes = [0u8; 64];
    assert!(Signature::from_bytes(&bytes).is_ok());
    bytes[63] = 0x1f;
    assert_eq!(Signature::from_bytes(&bytes).unwrap().as_bytes(), &bytes[..]);
    for top in [0x20u8, 0x40, 0x80, 0xe0, 0xff] {
        bytes[63] = top;
        assert_eq!(Signature::from_bytes(&bytes), Err(AuthError::MalformedSignature));
    }
    bytes[63] = 0;
    bytes[0] = 0xff;
    bytes[62] = 0xff;
    assert!(Signature::from_bytes(&bytes).is_ok());
}

#[test]
fn signature_from_bytes_agrees_with_the_scheme_on_every_last_byte() {
    let mut bytes = [7u8; 64];
    for last in 0..=255u8 {
        bytes[63] = last;
        assert_eq!(
            Signature::from_bytes(&bytes).is_ok(),
            ed25519_dalek::Signature::from_bytes(&bytes).is_ok()
        );
    }
}

#[test]
fn signature_from_bytes_rejects_wrong_lengths() {
    assert_eq!(Signature::from_bytes(&[]), Err(AuthError::MalformedSignature));
    assert_eq!(Signature::from_bytes(&[0u8; 63]), Err(AuthError::MalformedSignature));
    assert_eq!(Signature::from_bytes(&[0u8; 65]), Err(AuthError::MalformedSignature));
}

#[test]
fn key_from_hex_loads_a_public_key() {
    let pair = scheme_keypair(1);
    let text = hex::encode(pair.public.as_bytes());
    let key = VerificationKey::from_hex(text.as_bytes()).unwrap();
    assert_eq!(key.as_bytes(), &pair.public.as_bytes()[..]);
    let upper = text.to_uppercase();
    let again = VerificationKey::from_hex(upper.as_bytes()).unwrap();
    assert_eq!(again, key);
}

#[test]
fn key_from_hex_rejects_text_that_is_not_hex() {
    let pair = scheme_keypair(1);
    let mut text = hex::encode(pair.public.as_bytes());
    text.pop();
    assert_eq!(
        VerificationKey::from_hex(text.as_bytes()),
        Err(KeyError::MalformedKeyEncoding)
    );
    text.push('x');
    assert_eq!(
        VerificationKey::from_hex(text.as_bytes()),
        Err(KeyError::MalformedKeyEncoding)
    );
}

#[test]
fn key_from_hex_rejects_bytes_that_are_no_key() {
    assert_eq!(VerificationKey::from_hex(b""), Err(KeyError::MalformedKey));
    assert_eq!(
        VerificationKey::from_hex("00".repeat(31).as_bytes()),
        Err(KeyError::MalformedKey)
    );
    assert_eq!(
        VerificationKey::from_hex("00".repeat(33).as_bytes()),
        Err(KeyError::MalformedKey)
    );
}

#[test]
fn key_from_bytes_agrees_with_the_scheme_on_what_is_a_point() {
    let mut accepted = 0;
    let mut refused = 0;
    for first in 0..=255u8 {
        let mut bytes = [0u8; 32];
        bytes[0] = first;
        let ours = VerificationKey::from_bytes(&bytes);
        let theirs = PublicKey::from_bytes(&bytes);
        assert_eq!(ours.is_ok(), theirs.is_ok());
        match ours {
            Ok(key) => {
                assert_eq!(key.as_bytes(), &bytes[..]);
                accepted += 1;
            }
            Err(reason) => {
                assert_eq!(reason, KeyError::MalformedKey);
                refused += 1;
            }
        }
    }
    assert!(accepted > 0);
    assert!(refused > 0);
}

#[test]
fn key_clone_holds_the_same_bytes() {
    let pair = scheme_keypair(2);
    let key = VerificationKey::from_bytes(pair.public.as_bytes()).unwrap();
    let copy = key.clone();
    assert_eq!(copy, key);
    assert_eq!(copy.as_bytes(), &pair.public.as_bytes()[..]);
}

#[test]
fn verify_accepts_what_the_private_key_signed() {
    let pair = scheme_keypair(3);
    let key = VerificationKey::from_bytes(pair.public.as_bytes()).unwrap();
    let message = b"1700000000{\"type\":1}";
    let signed = pair.sign(message);
    let signature = Signature::from_bytes(&signed.to_bytes()).unwrap();
    assert!(key.verify(message, &signature));
}

#[test]
fn verify_rejects_another_message() {
    let pair = scheme_keypair(3);
    let key = VerificationKey::from_bytes(pair.public.as_bytes()).unwrap();
    let signed = pair.sign(b"1700000000{\"type\":1}");
    let signature = Signature::from_bytes(&signed.to_bytes()).unwrap();
    assert!(!key.verify(b"1700000000{\"type\":2}", &signature));
    assert!(!key.verify(b"1700000001{\"type\":1}", &signature));
    assert!(!key.verify(b"", &signature));
}

#[test]
fn verify_rejects_another_key() {
    let signer = scheme_keypair(3);
    let other = scheme_keypair(4);
    let key = VerificationKey::from_bytes(other.public.as_bytes()).unwrap();
    let message = b"1700000000{}";
    let signature = Signature::from_bytes(&signer.sign(message).to_bytes()).unwrap();
    assert!(!key.verify(message, &signature));
}

#[test]
fn verify_gives_the_same_answer_every_time() {
    let pair = scheme_keypair(5);
    let key = VerificationKey::from_bytes(pair.public.as_bytes()).unwrap();
    let message = b"again and again";
    let good = Signature::from_bytes(&pair.sign(message).to_bytes()).unwrap();
    let bad = Signature::from_bytes(&[0u8; 64]).unwrap();
    for _ in 0..3 {
        assert!(key.verify(message, &good));
        assert!(!key.verify(message, &bad));
    }
}

#[test]
fn error_messages_name_the_reason() {
    assert_eq!(
        AuthError::MalformedSignatureEncoding.message(),
        "Invalid signature: not hexadecimal"
    );
    assert_eq!(AuthError::MalformedSignature.message(), "Invalid signature: malformed");
    assert_eq!(
        AuthError::VerificationMismatch.message(),
        "Invalid signature: verification failed"
    );
    assert_eq!(
        KeyError::MalformedKeyEncoding.message(),
        "Invalid public key: not hexadecimal"
    );
    assert_eq!(KeyError::MalformedKey.message(), "Invalid public key: malformed");
}
