use vstd::prelude::*;
use vstd::slice::slice_subrange;

use crate::error::EciesError;
use crate::keys::{
    compressed_public_key_of, is_valid_public, is_valid_secret, public_key_accepted,
    sec1_point_accepted, uncompressed_public_key, uncompressed_public_key_of, PublicKey, SecretKey,
};
use crate::text::concat_bytes;

verus! {

/// Bytes of the uncompressed ephemeral public key at the head of an envelope.
pub const EPHEMERAL_KEY_LEN: usize = 65;

/// Bytes of the nonce that follows the ephemeral key.
pub const NONCE_LEN: usize = 16;

/// Bytes of the authentication tag that follows the nonce.
pub const TAG_LEN: usize = 16;

/// Bytes that an envelope holds besides the ciphertext proper, which is as
/// long as the plaintext.
pub const ENVELOPE_OVERHEAD: usize = EPHEMERAL_KEY_LEN + NONCE_LEN + TAG_LEN;

/// The longest plaintext that AES-256-GCM encrypts: 2^36 bytes.
pub const MAX_MESSAGE_LEN: u64 = 0x10_0000_0000;

/// The ephemeral public key at the head of an envelope.
pub open spec fn ephemeral_key(envelope: Seq<u8>) -> Seq<u8> {
    envelope.subrange(0, EPHEMERAL_KEY_LEN as int)
}

/// What follows the ephemeral key in an envelope: nonce, tag and ciphertext.
pub open spec fn sealed_payload(envelope: Seq<u8>) -> Seq<u8> {
    envelope.subrange(EPHEMERAL_KEY_LEN as int, envelope.len() as int)
}

/// The symmetric key that `ecies::utils::decapsulate` derives from an
/// ephemeral public key and a secret key, with the uncompressed shared point,
/// or `None` where it fails.
pub uninterp spec fn decapsulated_key(ephemeral: Seq<u8>, sk: Seq<u8>) -> Option<Seq<u8>>;

/// What `ecies::symmetric::sym_decrypt` reads from nonce, tag and ciphertext
/// under a key, or `None` where the tag does not verify.
pub uninterp spec fn sym_opened(key: Seq<u8>, payload: Seq<u8>) -> Option<Seq<u8>>;

/// What decrypting `envelope` with the secret key `sk` gives: a structural
/// failure for an envelope too short to hold its parts or whose ephemeral key
/// is no point of the curve, else the plaintext where the tag verifies.
pub open spec fn open_envelope(sk: Seq<u8>, envelope: Seq<u8>) -> Result<Seq<u8>, EciesError> {
    if envelope.len() < ENVELOPE_OVERHEAD {
        Err(EciesError::MalformedEnvelope)
    } else if !sec1_point_accepted(ephemeral_key(envelope)) {
        Err(EciesError::MalformedEnvelope)
    } else {
        match decapsulated_key(ephemeral_key(envelope), sk) {
            None => Err(EciesError::MalformedEnvelope),
            Some(key) => match sym_opened(key, sealed_payload(envelope)) {
                Some(m) => Ok(m),
                None => Err(EciesError::AuthenticationFailure),
            },
        }
    }
}

/// `envelope` is an encryption of `msg` for the public key `pk`: it holds the
/// ephemeral key, nonce, tag and a ciphertext as long as `msg`, and the secret
/// key that belongs to `pk` opens it to `msg`.
pub open spec fn sealed_for(pk: Seq<u8>, msg: Seq<u8>, envelope: Seq<u8>) -> bool {
    &&& envelope.len() == ENVELOPE_OVERHEAD + msg.len()
    &&& forall|sk: Seq<u8>|
        is_valid_secret(sk) && compressed_public_key_of(sk) == pk ==> #[trigger] open_envelope(
            sk,
            envelope,
        ) == Ok::<Seq<u8>, EciesError>(msg)
}

/// Relies on `ecies::utils::encapsulate` with the uncompressed shared point:
/// HKDF-SHA256 of the sender's uncompressed public key and of `pk * eph_sk`,
/// 32 bytes. It fails only where that point is the identity, which a curve
/// point and a non-zero scalar below the group order never give. By the
/// agreement of ECDH, `ecies::utils::decapsulate` of the sender's public key
/// with the recipient's secret key derives the same key.
#[verifier::external_body]
fn encapsulated_key(eph_sk: &[u8], pk: &[u8]) -> (r: Vec<u8>)
    requires
        is_valid_secret(eph_sk@),
        is_valid_public(pk@),
    ensures
        r@.len() == 32,
        forall|sk: Seq<u8>|
            is_valid_secret(sk) && compressed_public_key_of(sk) == pk@ ==> #[trigger] decapsulated_key(
                uncompressed_public_key_of(eph_sk@),
                sk,
            ) == Some(r@),
{
    let eph = ecies::SecretKey::parse_slice(eph_sk).unwrap();
    let peer = ecies::PublicKey::parse_slice(pk, None).unwrap();
    ecies::utils::encapsulate(&eph, &peer, false).unwrap().to_vec()
}

/// Relies on `ecies::utils::decapsulate` with the uncompressed shared point:
/// a 32-byte key that depends on its arguments alone.
#[verifier::external_body]
fn decapsulate(ephemeral: &[u8], sk: &[u8]) -> (r: Option<Vec<u8>>)
    requires
        sec1_point_accepted(ephemeral@),
        is_valid_secret(sk@),
    ensures
        match r {
            Some(k) => decapsulated_key(ephemeral@, sk@) == Some(k@) && k@.len() == 32,
            None => decapsulated_key(ephemeral@, sk@) is None,
        },
{
    let eph = ecies::PublicKey::parse_slice(ephemeral, None).unwrap();
    let key = ecies::SecretKey::parse_slice(sk).unwrap();
    ecies::utils::decapsulate(&eph, &key, false).ok().map(|k| k.to_vec())
}

/// Relies on `ecies::symmetric::sym_encrypt`: AES-256-GCM under a random
/// 16-byte nonce, laid out as nonce, 16-byte tag and a ciphertext as long as
/// `msg`, which `sym_decrypt` opens again under the same key. aes-gcm refuses
/// only a message longer than 2^36 bytes.
#[verifier::external_body]
fn sym_seal(key: &[u8], msg: &[u8]) -> (r: Option<Vec<u8>>)
    requires
        key@.len() == 32,
    ensures
        msg@.len() <= MAX_MESSAGE_LEN ==> r is Some,
        r is Some ==> r->Some_0@.len() == NONCE_LEN + TAG_LEN + msg@.len() && sym_opened(
            key@,
            r->Some_0@,
        ) == Some(msg@),
{
    ecies::symmetric::sym_encrypt(key, msg)
}

/// Relies on `ecies::symmetric::sym_decrypt`: the outcome depends on the key
/// and the payload alone.
#[verifier::external_body]
fn sym_open(key: &[u8], payload: &[u8]) -> (r: Option<Vec<u8>>)
    requires
        key@.len() == 32,
    ensures
        match r {
            Some(m) => sym_opened(key@, payload@) == Some(m@),
            None => sym_opened(key@, payload@) is None,
        },
{
    ecies::symmetric::sym_decrypt(key, payload)
}

/// A fresh key pair: a random secret key and the public key that belongs to it.
pub fn generate_keypair() -> (r: (SecretKey, PublicKey))
    ensures
        is_valid_secret(r.0@),
        r.1@ == compressed_public_key_of(r.0@),
        is_valid_public(r.1@),
{
    let sk = SecretKey::random();
    let pk = sk.public_key();
    (sk, pk)
}

/// The public key that belongs to a secret key; the same key every time.
pub fn derive_public_key(sk: &SecretKey) -> (r: PublicKey)
    ensures
        r@ == compressed_public_key_of(sk@),
        is_valid_public(r@),
{
    sk.public_key()
}

/// Encrypts `msg` for the holder of the secret key that belongs to `pk`, with
/// a fresh ephemeral key and nonce. It fails only on a message longer than
/// the cipher takes.
pub fn encrypt(pk: &PublicKey, msg: &[u8]) -> (r: Result<Vec<u8>, EciesError>)
    requires
        msg@.len() + ENVELOPE_OVERHEAD <= usize::MAX,
    ensures
        match r {
            Ok(c) => sealed_for(pk@, msg@, c@),
            Err(e) => e == EciesError::EncryptionFailure && msg@.len() > MAX_MESSAGE_LEN,
        },
{
    let eph_sk = SecretKey::random();
    let eph = eph_sk.as_bytes();
    let eph_pk = uncompressed_public_key(eph);
    let key = encapsulated_key(eph, pk.as_bytes());
    match sym_seal(key.as_slice(), msg) {
        None => Err(EciesError::EncryptionFailure),
        Some(payload) => {
            let envelope = concat_bytes(eph_pk.as_slice(), payload.as_slice());
            proof {
                assert(ephemeral_key(envelope@) =~= eph_pk@);
                assert(sealed_payload(envelope@) =~= payload@);
                assert forall|sk: Seq<u8>|
                    is_valid_secret(sk) && compressed_public_key_of(sk)
                        == pk@ implies #[trigger] open_envelope(sk, envelope@) == Ok::<
                    Seq<u8>,
                    EciesError,
                >(msg@) by {
                    assert(decapsulated_key(uncompressed_public_key_of(eph@), sk) == Some(key@));
                }
            }
            Ok(envelope)
        },
    }
}

/// Decrypts an envelope with a secret key. The tag is checked before any
/// plaintext is handed out.
pub fn decrypt(sk: &SecretKey, envelope: &[u8]) -> (r: Result<Vec<u8>, EciesError>)
    ensures
        match r {
            Ok(m) => open_envelope(sk@, envelope@) == Ok::<Seq<u8>, EciesError>(m@),
            Err(e) => open_envelope(sk@, envelope@) == Err::<Seq<u8>, EciesError>(e),
        },
{
    if envelope.len() < ENVELOPE_OVERHEAD {
        return Err(EciesError::MalformedEnvelope);
    }
    let ephemeral = slice_subrange(envelope, 0, EPHEMERAL_KEY_LEN);
    if !public_key_accepted(ephemeral) {
        return Err(EciesError::MalformedEnvelope);
    }
    let key = match decapsulate(ephemeral, sk.as_bytes()) {
        Some(k) => k,
        None => return Err(EciesError::MalformedEnvelope),
    };
    match sym_open(key.as_slice(), slice_subrange(envelope, EPHEMERAL_KEY_LEN, envelope.len())) {
        Some(m) => Ok(m),
        None => Err(EciesError::AuthenticationFailure),
    }
}

/// An envelope made for the public key of a secret key opens, with that
/// secret key, to the plaintext it was made from.
pub proof fn lemma_open_sealed(sk: Seq<u8>, msg: Seq<u8>, envelope: Seq<u8>)
    requires
        is_valid_secret(sk),
        sealed_for(compressed_public_key_of(sk), msg, envelope),
    ensures
        open_envelope(sk, envelope) == Ok::<Seq<u8>, EciesError>(msg),
{
}

} // verus!
