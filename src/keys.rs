use vstd::prelude::*;

use crate::error::EciesError;
use crate::text::copy_bytes;

verus! {

/// Bytes in a serialized secret key.
pub const SECRET_KEY_LEN: usize = 32;

/// Bytes in a compressed public key.
pub const PUBLIC_KEY_LEN: usize = 33;

/// The order of the secp256k1 group.
pub open spec fn curve_order() -> nat {
    let limb: nat = 0x1_0000_0000_0000_0000;
    ((0xffff_ffff_ffff_ffff * limb + 0xffff_ffff_ffff_fffe) * limb + 0xbaae_dce6_af48_a03b) * limb
        + 0xbfd2_5e8c_d036_4141
}

/// The unsigned integer that a byte sequence spells, most significant byte first.
pub open spec fn big_endian_value(b: Seq<u8>) -> nat
    decreases b.len(),
{
    if b.len() == 0 {
        0
    } else {
        big_endian_value(b.drop_last()) * 256 + b.last() as nat
    }
}

/// A serialized secret key: 32 bytes holding a scalar in `1 .. curve_order()`.
pub open spec fn is_valid_secret(b: Seq<u8>) -> bool {
    &&& b.len() == SECRET_KEY_LEN
    &&& 0 < big_endian_value(b)
    &&& big_endian_value(b) < curve_order()
}

/// Whether `ecies::PublicKey::parse_slice` (with no format given) accepts the bytes
/// as a SEC1-encoded point of the curve.
pub uninterp spec fn sec1_point_accepted(b: Seq<u8>) -> bool;

/// The compressed SEC1 encoding of the public key that belongs to a secret key.
pub uninterp spec fn compressed_public_key_of(sk: Seq<u8>) -> Seq<u8>;

/// A compressed public key: 33 bytes, the first of them 2 or 3 (the parity of
/// y), that decode to a point of the curve.
pub open spec fn is_valid_public(b: Seq<u8>) -> bool {
    &&& b.len() == PUBLIC_KEY_LEN
    &&& (b[0] == 2 || b[0] == 3)
    &&& sec1_point_accepted(b)
}

/// The 65-byte uncompressed SEC1 encoding of the public key that belongs to a
/// secret key.
pub uninterp spec fn uncompressed_public_key_of(sk: Seq<u8>) -> Seq<u8>;

/// Relies on `ecies::SecretKey::parse_slice`: it accepts exactly 32 bytes that
/// hold a non-zero scalar below the group order.
#[verifier::external_body]
fn secret_key_accepted(b: &[u8]) -> (r: bool)
    ensures
        r == is_valid_secret(b@),
{
    ecies::SecretKey::parse_slice(b).is_ok()
}

/// Relies on `ecies::PublicKey::parse_slice` with no format: it accepts 33, 64
/// or 65 bytes that encode a point of the curve.
#[verifier::external_body]
pub(crate) fn public_key_accepted(b: &[u8]) -> (r: bool)
    ensures
        r == sec1_point_accepted(b@),
        r ==> b@.len() == 33 || b@.len() == 64 || b@.len() == 65,
{
    ecies::PublicKey::parse_slice(b, None).is_ok()
}

/// Relies on `ecies::PublicKey::from_secret_key` and `serialize_compressed`:
/// the point `sk * G` in its 33-byte compressed form, which `parse_slice`
/// accepts again. `parse_slice` only turns the valid bytes into the crate's key.
#[verifier::external_body]
fn compressed_public_key(sk: &[u8]) -> (r: Vec<u8>)
    requires
        is_valid_secret(sk@),
    ensures
        r@ == compressed_public_key_of(sk@),
        is_valid_public(r@),
{
    let key = ecies::SecretKey::parse_slice(sk).unwrap();
    ecies::PublicKey::from_secret_key(&key).serialize_compressed().to_vec()
}

/// Relies on `ecies::PublicKey::from_secret_key` and `serialize`: the point
/// `sk * G` in its 65-byte uncompressed form, which `parse_slice` accepts again.
/// `parse_slice` only turns the valid bytes into the crate's key.
#[verifier::external_body]
pub(crate) fn uncompressed_public_key(sk: &[u8]) -> (r: Vec<u8>)
    requires
        is_valid_secret(sk@),
    ensures
        r@ == uncompressed_public_key_of(sk@),
        r@.len() == 65,
        sec1_point_accepted(r@),
{
    let key = ecies::SecretKey::parse_slice(sk).unwrap();
    ecies::PublicKey::from_secret_key(&key).serialize().to_vec()
}

/// Relies on `ecies::utils::generate_keypair`: its secret half, drawn from the
/// operating system's random source, serialized as 32 bytes. The public half is
/// not used. It panics only where the random source fails.
#[verifier::external_body]
fn random_secret_key() -> (r: Vec<u8>)
    ensures
        is_valid_secret(r@),
{
    ecies::utils::generate_keypair().0.serialize().to_vec()
}

/// A secp256k1 secret key, held as its 32-byte big-endian serialization.
pub struct SecretKey {
    bytes: Vec<u8>,
}

impl View for SecretKey {
    type V = Seq<u8>;

    closed spec fn view(&self) -> Seq<u8> {
        self.bytes@
    }
}

impl SecretKey {
    #[verifier::type_invariant]
    spec fn inv(&self) -> bool {
        is_valid_secret(self.bytes@)
    }

    /// The key that 32 bytes hold; `InvalidKey` unless they are a valid scalar.
    pub fn from_bytes(b: &[u8]) -> (r: Result<SecretKey, EciesError>)
        ensures
            match r {
                Ok(k) => is_valid_secret(b@) && k@ == b@,
                Err(e) => !is_valid_secret(b@) && e == EciesError::InvalidKey,
            },
    {
        if secret_key_accepted(b) {
            Ok(SecretKey { bytes: copy_bytes(b) })
        } else {
            Err(EciesError::InvalidKey)
        }
    }

    /// A fresh key from the operating system's random source.
    pub fn random() -> (r: SecretKey)
        ensures
            is_valid_secret(r@),
    {
        SecretKey { bytes: random_secret_key() }
    }

    /// The key's 32 bytes.
    pub fn as_bytes(&self) -> (r: &[u8])
        ensures
            r@ == self@,
            is_valid_secret(r@),
    {
        proof {
            use_type_invariant(self);
        }
        self.bytes.as_slice()
    }

    /// The public key that belongs to this key.
    pub fn public_key(&self) -> (r: PublicKey)
        ensures
            r@ == compressed_public_key_of(self@),
            is_valid_public(r@),
    {
        proof {
            use_type_invariant(self);
        }
        PublicKey { bytes: compressed_public_key(self.bytes.as_slice()) }
    }
}

/// A secp256k1 public key, held in its 33-byte compressed form.
pub struct PublicKey {
    bytes: Vec<u8>,
}

impl View for PublicKey {
    type V = Seq<u8>;

    closed spec fn view(&self) -> Seq<u8> {
        self.bytes@
    }
}

impl PublicKey {
    #[verifier::type_invariant]
    spec fn inv(&self) -> bool {
        is_valid_public(self.bytes@)
    }

    /// The key that 33 bytes hold; `InvalidKey` unless they are a compressed
    /// point of the curve (first byte 2 or 3).
    pub fn from_bytes(b: &[u8]) -> (r: Result<PublicKey, EciesError>)
        ensures
            match r {
                Ok(k) => is_valid_public(b@) && k@ == b@,
                Err(e) => !is_valid_public(b@) && e == EciesError::InvalidKey,
            },
    {
        if b.len() == PUBLIC_KEY_LEN && (b[0] == 2 || b[0] == 3) && public_key_accepted(b) {
            Ok(PublicKey { bytes: copy_bytes(b) })
        } else {
            Err(EciesError::InvalidKey)
        }
    }

    /// The key's 33 bytes.
    pub fn as_bytes(&self) -> (r: &[u8])
        ensures
            r@ == self@,
            is_valid_public(r@),
    {
        proof {
            use_type_invariant(self);
        }
        self.bytes.as_slice()
    }
}

} // verus!
