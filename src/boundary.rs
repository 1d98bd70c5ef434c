use vstd::prelude::*;

use crate::codec::{
    decode_ciphertext, decode_public_key, decode_secret_key, encode_ciphertext, encode_public_key,
    encode_secret_key, public_key_from_text,
    secret_key_from_text,
};
use crate::engine::{
    decrypt, derive_public_key, encrypt, generate_keypair, open_envelope, sealed_for,
    ENVELOPE_OVERHEAD, MAX_MESSAGE_LEN,
};
use crate::error::EciesError;
use crate::keys::{compressed_public_key_of, is_valid_secret};
use crate::text::{base64_bytes, base64_text, hex_bytes, hex_text, lemma_hex_round_trip};

verus! {

/// A text result seen as a sequence of characters.
pub open spec fn text_result(r: Result<String, EciesError>) -> Result<Seq<char>, EciesError> {
    match r {
        Ok(t) => Ok(t@),
        Err(e) => Err(e),
    }
}

/// A byte result seen as a sequence of bytes.
pub open spec fn bytes_result(r: Result<Vec<u8>, EciesError>) -> Result<Seq<u8>, EciesError> {
    match r {
        Ok(b) => Ok(b@),
        Err(e) => Err(e),
    }
}

/// The public key text that belongs to a secret key text.
pub open spec fn public_key_text_from(secret_text: Seq<char>) -> Result<Seq<char>, EciesError> {
    match secret_key_from_text(secret_text) {
        Ok(sk) => Ok(hex_text(compressed_public_key_of(sk))),
        Err(e) => Err(e),
    }
}

/// `t` is the base64 text of an envelope that seals `msg` for the public key `pk`.
pub open spec fn encrypted_text_for(pk: Seq<u8>, msg: Seq<u8>, t: Seq<char>) -> bool {
    exists|c: Seq<u8>|
        #[trigger] sealed_for(pk, msg, c) && t == base64_text(c) && base64_bytes(t) == Some(c)
}

/// What encrypting `msg` for the public key text `public_text` may give: the
/// error of reading the key, else an envelope's text for that key, or, for a
/// message longer than the cipher takes, a refusal.
pub open spec fn encrypt_outcome(
    public_text: Seq<char>,
    msg: Seq<u8>,
    r: Result<Seq<char>, EciesError>,
) -> bool {
    match public_key_from_text(public_text) {
        Err(e) => r == Err::<Seq<char>, EciesError>(e),
        Ok(pk) => match r {
            Ok(t) => encrypted_text_for(pk, msg, t),
            Err(e) => e == EciesError::EncryptionFailure && msg.len() > MAX_MESSAGE_LEN,
        },
    }
}

/// What decrypting the envelope text `envelope_text` with the secret key text
/// `secret_text` gives.
pub open spec fn plaintext_from_texts(secret_text: Seq<char>, envelope_text: Seq<char>) -> Result<
    Seq<u8>,
    EciesError,
> {
    match secret_key_from_text(secret_text) {
        Err(e) => Err(e),
        Ok(sk) => match base64_bytes(envelope_text) {
            None => Err(EciesError::DecodeError),
            Some(c) => open_envelope(sk, c),
        },
    }
}

/// A fresh random secret key as 64 lowercase hex characters.
pub fn ecies_generate_secret_key() -> (r: String)
    ensures
        is_valid_secret(hex_bytes(r@)),
        r@ == hex_text(hex_bytes(r@)),
        secret_key_from_text(r@) == Ok::<Seq<u8>, EciesError>(hex_bytes(r@)),
{
    let (sk, _pk) = generate_keypair();
    let r = encode_secret_key(&sk);
    proof {
        lemma_hex_round_trip(sk@);
    }
    r
}

/// The hex text of the compressed public key that belongs to a secret key
/// given as hex text.
pub fn ecies_public_key_from(secret_text: &str) -> (r: Result<String, EciesError>)
    ensures
        text_result(r) == public_key_text_from(secret_text@),
        r is Ok ==> public_key_from_text(r->Ok_0@) == Ok::<Seq<u8>, EciesError>(
            hex_bytes(r->Ok_0@),
        ),
{
    let sk = decode_secret_key(secret_text)?;
    let pk = derive_public_key(&sk);
    Ok(encode_public_key(&pk))
}

/// Encrypts a message for a public key given as hex text, and gives the
/// envelope as standard base64 text.
pub fn ecies_encrypt(public_text: &str, message: &[u8]) -> (r: Result<String, EciesError>)
    requires
        message@.len() + ENVELOPE_OVERHEAD <= usize::MAX,
    ensures
        encrypt_outcome(public_text@, message@, text_result(r)),
{
    let pk = match decode_public_key(public_text) {
        Ok(pk) => pk,
        Err(e) => return Err(e),
    };
    let envelope = match encrypt(&pk, message) {
        Ok(c) => c,
        Err(e) => return Err(e),
    };
    let t = encode_ciphertext(envelope.as_slice());
    assert(sealed_for(pk@, message@, envelope@));
    Ok(t)
}

/// Decrypts an envelope given as standard base64 text with a secret key given
/// as hex text.
pub fn ecies_decrypt(secret_text: &str, envelope_text: &str) -> (r: Result<Vec<u8>, EciesError>)
    ensures
        bytes_result(r) == plaintext_from_texts(secret_text@, envelope_text@),
{
    let sk = match decode_secret_key(secret_text) {
        Ok(sk) => sk,
        Err(e) => return Err(e),
    };
    let envelope = match decode_ciphertext(envelope_text) {
        Ok(c) => c,
        Err(e) => return Err(e),
    };
    decrypt(&sk, envelope.as_slice())
}

/// Deriving the public key text from two secret key texts that read as the
/// same key gives the same text.
pub proof fn lemma_public_key_from_deterministic(s1: Seq<char>, s2: Seq<char>)
    requires
        secret_key_from_text(s1) is Ok,
        secret_key_from_text(s1) == secret_key_from_text(s2),
    ensures
        public_key_text_from(s1) is Ok,
        public_key_text_from(s1) == public_key_text_from(s2),
{
}

/// A message encrypted for the public key text derived from a secret key text
/// decrypts, with that secret key text, to the message.
pub proof fn lemma_round_trip(
    secret_text: Seq<char>,
    public_text: Seq<char>,
    msg: Seq<u8>,
    envelope_text: Seq<char>,
)
    requires
        public_key_text_from(secret_text) == Ok::<Seq<char>, EciesError>(public_text),
        encrypt_outcome(public_text, msg, Ok(envelope_text)),
    ensures
        plaintext_from_texts(secret_text, envelope_text) == Ok::<Seq<u8>, EciesError>(msg),
{
    let sk = secret_key_from_text(secret_text)->Ok_0;
    let pk = compressed_public_key_of(sk);
    lemma_hex_round_trip(pk);
    let c = choose|c: Seq<u8>|
        #[trigger] sealed_for(hex_bytes(public_text), msg, c) && envelope_text == base64_text(c)
            && base64_bytes(envelope_text) == Some(c);
    assert(open_envelope(sk, c) == Ok::<Seq<u8>, EciesError>(msg));
}

} // verus!
