use vstd::prelude::*;

use crate::error::EciesError;
use crate::keys::{is_valid_public, is_valid_secret, PublicKey, SecretKey, PUBLIC_KEY_LEN, SECRET_KEY_LEN};
use crate::text::{
    base64_bytes, base64_text, from_base64, from_hex, hex_bytes, hex_text, is_hex_digit,
    is_hex_text, lemma_hex_round_trip, to_base64, to_hex,
};

verus! {

/// The secret key that a hex text stands for: a decode failure for text that
/// is not hex or does not hold 32 bytes, an invalid key for 32 bytes out of range.
pub open spec fn secret_key_from_text(s: Seq<char>) -> Result<Seq<u8>, EciesError> {
    if !is_hex_text(s) || hex_bytes(s).len() != SECRET_KEY_LEN {
        Err(EciesError::DecodeError)
    } else if !is_valid_secret(hex_bytes(s)) {
        Err(EciesError::InvalidKey)
    } else {
        Ok(hex_bytes(s))
    }
}

/// The public key that a hex text stands for: a decode failure for text that
/// is not hex or does not hold 33 bytes, an invalid key for 33 bytes that are
/// no compressed point of the curve.
pub open spec fn public_key_from_text(s: Seq<char>) -> Result<Seq<u8>, EciesError> {
    if !is_hex_text(s) || hex_bytes(s).len() != PUBLIC_KEY_LEN {
        Err(EciesError::DecodeError)
    } else if !is_valid_public(hex_bytes(s)) {
        Err(EciesError::InvalidKey)
    } else {
        Ok(hex_bytes(s))
    }
}

/// The envelope that a base64 text stands for.
pub open spec fn envelope_from_text(s: Seq<char>) -> Result<Seq<u8>, EciesError> {
    match base64_bytes(s) {
        Some(c) => Ok(c),
        None => Err(EciesError::DecodeError),
    }
}

/// The lowercase hex text of a secret key: 64 characters.
pub fn encode_secret_key(sk: &SecretKey) -> (r: String)
    ensures
        r@ == hex_text(sk@),
        r@.len() == 2 * SECRET_KEY_LEN,
        secret_key_from_text(r@) == Ok::<Seq<u8>, EciesError>(sk@),
{
    let b = sk.as_bytes();
    proof {
        lemma_secret_key_text_round_trip(b@);
    }
    to_hex(b)
}

/// Reads a secret key from hex text.
pub fn decode_secret_key(text: &str) -> (r: Result<SecretKey, EciesError>)
    ensures
        match r {
            Ok(k) => secret_key_from_text(text@) == Ok::<Seq<u8>, EciesError>(k@),
            Err(e) => secret_key_from_text(text@) == Err::<Seq<u8>, EciesError>(e),
        },
{
    match from_hex(text) {
        None => Err(EciesError::DecodeError),
        Some(b) => {
            if b.len() != SECRET_KEY_LEN {
                Err(EciesError::DecodeError)
            } else {
                SecretKey::from_bytes(b.as_slice())
            }
        },
    }
}

/// The lowercase hex text of a compressed public key: 66 characters.
pub fn encode_public_key(pk: &PublicKey) -> (r: String)
    ensures
        r@ == hex_text(pk@),
        r@.len() == 2 * PUBLIC_KEY_LEN,
        public_key_from_text(r@) == Ok::<Seq<u8>, EciesError>(pk@),
{
    let b = pk.as_bytes();
    proof {
        lemma_public_key_text_round_trip(b@);
    }
    to_hex(b)
}

/// Reads a compressed public key from hex text.
pub fn decode_public_key(text: &str) -> (r: Result<PublicKey, EciesError>)
    ensures
        match r {
            Ok(k) => public_key_from_text(text@) == Ok::<Seq<u8>, EciesError>(k@),
            Err(e) => public_key_from_text(text@) == Err::<Seq<u8>, EciesError>(e),
        },
{
    match from_hex(text) {
        None => Err(EciesError::DecodeError),
        Some(b) => {
            if b.len() != PUBLIC_KEY_LEN {
                Err(EciesError::DecodeError)
            } else {
                PublicKey::from_bytes(b.as_slice())
            }
        },
    }
}

/// The standard base64 text of an envelope, which decodes back to it.
pub fn encode_ciphertext(envelope: &[u8]) -> (r: String)
    ensures
        r@ == base64_text(envelope@),
        envelope_from_text(r@) == Ok::<Seq<u8>, EciesError>(envelope@),
{
    to_base64(envelope)
}

/// Reads an envelope from standard base64 text.
pub fn decode_ciphertext(text: &str) -> (r: Result<Vec<u8>, EciesError>)
    ensures
        match r {
            Ok(c) => envelope_from_text(text@) == Ok::<Seq<u8>, EciesError>(c@),
            Err(e) => envelope_from_text(text@) == Err::<Seq<u8>, EciesError>(e),
        },
{
    match from_base64(text) {
        Some(c) => Ok(c),
        None => Err(EciesError::DecodeError),
    }
}

/// Secret key text is refused as undecodable where its length is odd, where
/// it holds a character that is no hex digit, or where it decodes to other
/// than 32 bytes.
pub proof fn lemma_secret_key_text_rejected(s: Seq<char>)
    requires
        s.len() % 2 == 1 || (exists|i: int| 0 <= i < s.len() && !is_hex_digit(#[trigger] s[i])) || (
        is_hex_text(s) && hex_bytes(s).len() != SECRET_KEY_LEN),
    ensures
        secret_key_from_text(s) == Err::<Seq<u8>, EciesError>(EciesError::DecodeError),
{
}

/// Public key text is refused as undecodable where its length is odd, where
/// it holds a character that is no hex digit, or where it decodes to other
/// than 33 bytes.
pub proof fn lemma_public_key_text_rejected(s: Seq<char>)
    requires
        s.len() % 2 == 1 || (exists|i: int| 0 <= i < s.len() && !is_hex_digit(#[trigger] s[i])) || (
        is_hex_text(s) && hex_bytes(s).len() != PUBLIC_KEY_LEN),
    ensures
        public_key_from_text(s) == Err::<Seq<u8>, EciesError>(EciesError::DecodeError),
{
}

/// The hex text of a valid secret key reads back as that key.
pub proof fn lemma_secret_key_text_round_trip(sk: Seq<u8>)
    requires
        is_valid_secret(sk),
    ensures
        secret_key_from_text(hex_text(sk)) == Ok::<Seq<u8>, EciesError>(sk),
{
    lemma_hex_round_trip(sk);
}

/// The hex text of a valid public key reads back as that key.
pub proof fn lemma_public_key_text_round_trip(pk: Seq<u8>)
    requires
        is_valid_public(pk),
    ensures
        public_key_from_text(hex_text(pk)) == Ok::<Seq<u8>, EciesError>(pk),
{
    lemma_hex_round_trip(pk);
}

} // verus!
