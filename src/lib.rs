//! ECIES key generation, encryption and decryption over secp256k1, with the
//! text encodings used at a foreign-call boundary: lowercase hex for keys and
//! standard base64 for ciphertext envelopes.

pub mod boundary;
pub mod codec;
pub mod engine;
pub mod error;
pub mod keys;
pub mod text;

pub use boundary::{ecies_decrypt, ecies_encrypt, ecies_generate_secret_key, ecies_public_key_from};
pub use codec::{
    decode_ciphertext, decode_public_key, decode_secret_key, encode_ciphertext, encode_public_key,
    encode_secret_key,
};
pub use engine::{decrypt, derive_public_key, encrypt, generate_keypair};
pub use error::EciesError;
pub use keys::{PublicKey, SecretKey};
