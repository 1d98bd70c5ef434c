use vstd::prelude::*;

verus! {

/// What can go wrong in the engine and at the boundary.
#[derive(Clone, Copy, Debug, PartialEq, Eq, Structural)]
pub enum EciesError {
    /// Key material that is malformed or out of range.
    InvalidKey,
    /// Hex or base64 text that does not decode, or decodes to the wrong length.
    DecodeError,
    /// A ciphertext envelope that is too short or structurally invalid.
    MalformedEnvelope,
    /// The envelope's authentication tag did not verify.
    AuthenticationFailure,
    /// The symmetric cipher refused to encrypt.
    EncryptionFailure,
}

} // verus!
