use mobile_ecies::{
    decode_ciphertext, decode_public_key, decode_secret_key, decrypt, derive_public_key,
    ecies_decrypt, ecies_encrypt, ecies_generate_secret_key, ecies_public_key_from,
    encode_ciphertext, encode_public_key, encode_secret_key, encrypt, generate_keypair,
    EciesError, PublicKey, SecretKey,
};

const KNOWN_SECRET: &str = "e520872701d9ec44dbac2eab85512ad14ad0c42e01de56d7b528abd8524fcb47";
const KNOWN_ENVELOPE: &str = "047be1885aeb48d4d4db0c992996725d3264784fef88c5b60782f8d0f940c213227fc3f904f846d5ec3d0fba6653754501e8ebadc421aa3892a20fef33cff0206047058a4cfb4efbeae96b2d019b4ab2edce33328748a0d008a69c8f5816b72d45bd9b5a41bb6ea0127ab23057ec6fcd";
const ONE_SECRET: &str = "0000000000000000000000000000000000000000000000000000000000000001";
const ONE_PUBLIC: &str = "0279be667ef9dcbbac55a06295ce870b07029bfcdb2dce28d959f2815b16f81798";
const ORDER: &str = "fffffffffffffffffffffffffffffffebaaedce6af48a03bbfd25e8cd0364141";
const ORDER_MINUS_ONE: &str = "fffffffffffffffffffffffffffffffebaaedce6af48a03bbfd25e8cd0364140";

fn is_lower_hex(s: &str) -> bool {
    s.chars().all(|c| c.is_ascii_digit() || ('a'..='f').contains(&c))
}

fn flip_byte_of_text(envelope_text: &str, index: usize) -> String {
    let mut envelope = decode_ciphertext(envelope_text).unwrap();
    envelope[index] ^= 0x01;
    encode_ciphertext(&envelope)
}

#[test]
fn generated_secret_key_is_64_lowercase_hex() {
    let sk = ecies_generate_secret_key();
    assert_eq!(sk.len(), 64);
    assert!(is_lower_hex(&sk));
    assert!(decode_secret_key(&sk).is_ok());
}

#[test]
fn public_key_of_scalar_one_is_generator() {
    assert_eq!(ecies_public_key_from(ONE_SECRET).unwrap(), ONE_PUBLIC);
}

#[test]
fn public_key_text_is_66_hex_and_compressed() {
    let sk = ecies_generate_secret_key();
    let pk = ecies_public_key_from(&sk).unwrap();
    assert_eq!(pk.len(), 66);
    assert!(is_lower_hex(&pk));
    assert!(pk.starts_with("02") || pk.starts_with("03"));
}

#[test]
fn public_key_derivation_is_deterministic() {
    let sk = ecies_generate_secret_key();
    let a = ecies_public_key_from(&sk).unwrap();
    let b = ecies_public_key_from(&sk).unwrap();
    assert_eq!(a, b);
    let upper = sk.to_uppercase();
    assert_eq!(ecies_public_key_from(&upper).unwrap(), a);
}

#[test]
fn engine_derivation_is_deterministic() {
    let (sk, pk) = generate_keypair();
    assert_eq!(derive_public_key(&sk).as_bytes(), pk.as_bytes());
    assert_eq!(derive_public_key(&sk).as_bytes(), derive_public_key(&sk).as_bytes());
}

#[test]
fn hello_round_trip_and_other_key_fails() {
    let sk = ecies_generate_secret_key();
    let pk = ecies_public_key_from(&sk).unwrap();
    let envelope = ecies_encrypt(&pk, b"hello").unwrap();
    assert_eq!(ecies_decrypt(&sk, &envelope).unwrap(), b"hello".to_vec());
    let other = ecies_generate_secret_key();
    assert!(ecies_decrypt(&other, &envelope).is_err());
}

#[test]
fn round_trip_empty_message() {
    let sk = ecies_generate_secret_key();
    let pk = ecies_public_key_from(&sk).unwrap();
    let envelope = ecies_encrypt(&pk, b"").unwrap();
    assert_eq!(decode_ciphertext(&envelope).unwrap().len(), 97);
    assert_eq!(ecies_decrypt(&sk, &envelope).unwrap(), Vec::<u8>::new());
}

#[test]
fn round_trip_one_mebibyte() {
    let msg: Vec<u8> = (0..1024 * 1024).map(|i| (i % 251) as u8).collect();
    let sk = ecies_generate_secret_key();
    let pk = ecies_public_key_from(&sk).unwrap();
    let envelope = ecies_encrypt(&pk, &msg).unwrap();
    assert_eq!(decode_ciphertext(&envelope).unwrap().len(), 97 + msg.len());
    assert_eq!(ecies_decrypt(&sk, &envelope).unwrap(), msg);
}

#[test]
fn engine_round_trip() {
    let (sk, pk) = generate_keypair();
    let envelope = encrypt(&pk, b"engine").unwrap();
    assert_eq!(envelope.len(), 97 + 6);
    assert_eq!(envelope[0], 0x04);
    assert_eq!(decrypt(&sk, &envelope).unwrap(), b"engine".to_vec());
}

#[test]
fn encryption_is_not_deterministic() {
    let sk = ecies_generate_secret_key();
    let pk = ecies_public_key_from(&sk).unwrap();
    let a = ecies_encrypt(&pk, b"same message").unwrap();
    let b = ecies_encrypt(&pk, b"same message").unwrap();
    assert_ne!(a, b);
}

#[test]
fn flipping_any_byte_is_detected() {
    let sk = ecies_generate_secret_key();
    let pk = ecies_public_key_from(&sk).unwrap();
    let envelope = ecies_encrypt(&pk, b"tamper").unwrap();
    let len = decode_ciphertext(&envelope).unwrap().len();
    for i in 0..len {
        let tampered = flip_byte_of_text(&envelope, i);
        let r = ecies_decrypt(&sk, &tampered);
        assert!(
            r == Err(EciesError::AuthenticationFailure) || r == Err(EciesError::MalformedEnvelope),
            "byte {} was not detected",
            i
        );
    }
}

#[test]
fn flipping_a_tag_byte_is_authentication_failure() {
    let (sk, pk) = generate_keypair();
    let mut envelope = encrypt(&pk, b"tag").unwrap();
    envelope[65 + 16] ^= 0x80;
    assert_eq!(decrypt(&sk, &envelope), Err(EciesError::AuthenticationFailure));
}

#[test]
fn decrypt_known_envelope() {
    let envelope = hex::decode(KNOWN_ENVELOPE).unwrap();
    let text = encode_ciphertext(&envelope);
    let plain = ecies_decrypt(KNOWN_SECRET, &text).unwrap();
    assert_eq!(plain, "hello world🌍".as_bytes().to_vec());
}

#[test]
fn decrypt_known_envelope_with_other_key_fails() {
    let envelope = hex::decode(KNOWN_ENVELOPE).unwrap();
    let text = encode_ciphertext(&envelope);
    assert_eq!(ecies_decrypt(ONE_SECRET, &text), Err(EciesError::AuthenticationFailure));
}

#[test]
fn secret_key_text_round_trip() {
    let sk = decode_secret_key(KNOWN_SECRET).unwrap();
    assert_eq!(encode_secret_key(&sk), KNOWN_SECRET);
    let upper = decode_secret_key(&KNOWN_SECRET.to_uppercase()).unwrap();
    assert_eq!(upper.as_bytes(), sk.as_bytes());
}

#[test]
fn public_key_text_round_trip() {
    let pk = decode_public_key(ONE_PUBLIC).unwrap();
    assert_eq!(encode_public_key(&pk), ONE_PUBLIC);
    assert_eq!(pk.as_bytes()[0], 0x02);
}

#[test]
fn secret_key_decode_errors() {
    assert_eq!(decode_secret_key("abc").err(), Some(EciesError::DecodeError));
    assert_eq!(decode_secret_key(&"zz".repeat(32)).err(), Some(EciesError::DecodeError));
    assert_eq!(decode_secret_key(&"01".repeat(31)).err(), Some(EciesError::DecodeError));
    assert_eq!(decode_secret_key(&"01".repeat(33)).err(), Some(EciesError::DecodeError));
    assert_eq!(decode_secret_key("").err(), Some(EciesError::DecodeError));
    assert_eq!(decode_secret_key(&"00".repeat(32)).err(), Some(EciesError::InvalidKey));
    assert_eq!(decode_secret_key(ORDER).err(), Some(EciesError::InvalidKey));
    assert!(decode_secret_key(ORDER_MINUS_ONE).is_ok());
    assert!(decode_secret_key(ONE_SECRET).is_ok());
}

#[test]
fn public_key_decode_errors() {
    assert_eq!(decode_public_key("0").err(), Some(EciesError::DecodeError));
    assert_eq!(decode_public_key(&"g2".repeat(33)).err(), Some(EciesError::DecodeError));
    assert_eq!(decode_public_key(&"02".repeat(32)).err(), Some(EciesError::DecodeError));
    let full = format!("04{}", "11".repeat(64));
    assert_eq!(decode_public_key(&full).err(), Some(EciesError::DecodeError));
    assert_eq!(decode_public_key(&"00".repeat(33)).err(), Some(EciesError::InvalidKey));
    let compact = format!("05{}", "0".repeat(64));
    assert_eq!(decode_public_key(&compact).err(), Some(EciesError::InvalidKey));
    let compact_generator = format!("05{}", &ONE_PUBLIC[2..]);
    assert_eq!(decode_public_key(&compact_generator).err(), Some(EciesError::InvalidKey));
    assert_eq!(ecies_encrypt(&compact, b"hello").err(), Some(EciesError::InvalidKey));
}

#[test]
fn envelope_text_is_standard_base64_of_the_right_length() {
    let sk = ecies_generate_secret_key();
    let pk = ecies_public_key_from(&sk).unwrap();
    let msg = [0xfbu8; 40];
    let text = ecies_encrypt(&pk, &msg).unwrap();
    assert!(text.chars().all(|c| c.is_ascii_alphanumeric() || c == '+' || c == '/' || c == '='));
    assert_eq!(text.len() % 4, 0);
    assert_eq!(decode_ciphertext(&text).unwrap().len(), 97 + 40);
}

#[test]
fn round_trip_with_nul_and_non_utf8_bytes() {
    let sk = ecies_generate_secret_key();
    let pk = ecies_public_key_from(&sk).unwrap();
    let msg = vec![0u8, 0xff, 0xfe, 0, 1, 2];
    let envelope = ecies_encrypt(&pk, &msg).unwrap();
    assert_eq!(ecies_decrypt(&sk, &envelope).unwrap(), msg);
}

#[test]
fn boundary_errors() {
    assert_eq!(ecies_public_key_from("xyz").err(), Some(EciesError::DecodeError));
    assert_eq!(ecies_public_key_from(&"00".repeat(32)).err(), Some(EciesError::InvalidKey));
    assert_eq!(ecies_encrypt("123", b"m").err(), Some(EciesError::DecodeError));
    assert_eq!(ecies_encrypt(&"00".repeat(33), b"m").err(), Some(EciesError::InvalidKey));
    assert_eq!(ecies_decrypt("1", "AAAA").err(), Some(EciesError::DecodeError));
    assert_eq!(ecies_decrypt(ONE_SECRET, "not base64!").err(), Some(EciesError::DecodeError));
    assert_eq!(ecies_decrypt(ONE_SECRET, "AAAA").err(), Some(EciesError::MalformedEnvelope));
}

#[test]
fn malformed_envelopes() {
    let sk = SecretKey::from_bytes(&hex::decode(KNOWN_SECRET).unwrap()).unwrap();
    assert_eq!(decrypt(&sk, &[]), Err(EciesError::MalformedEnvelope));
    assert_eq!(decrypt(&sk, &[0u8; 96]), Err(EciesError::MalformedEnvelope));
    assert_eq!(decrypt(&sk, &[0u8; 97]), Err(EciesError::MalformedEnvelope));
    let envelope = hex::decode(KNOWN_ENVELOPE).unwrap();
    assert_eq!(decrypt(&sk, &envelope[..96]), Err(EciesError::MalformedEnvelope));
}

#[test]
fn base64_text_is_standard() {
    assert_eq!(encode_ciphertext(b"hello"), "aGVsbG8=");
    assert_eq!(encode_ciphertext(&[0xfb, 0xff]), "+/8=");
    assert_eq!(decode_ciphertext("+/8=").unwrap(), vec![0xfb, 0xff]);
    assert_eq!(decode_ciphertext("-_8=").err(), Some(EciesError::DecodeError));
}

#[test]
fn key_constructors() {
    assert_eq!(SecretKey::from_bytes(&[0u8; 31]).err(), Some(EciesError::InvalidKey));
    assert_eq!(PublicKey::from_bytes(&[2u8; 32]).err(), Some(EciesError::InvalidKey));
    let one = SecretKey::from_bytes(&hex::decode(ONE_SECRET).unwrap()).unwrap();
    assert_eq!(hex::encode(one.public_key().as_bytes()), ONE_PUBLIC);
    let random = SecretKey::random();
    assert_eq!(random.as_bytes().len(), 32);
}
