use vstd::prelude::*;

verus! {

/// Failures of the authenticated cipher.
#[derive(Debug, Clone, Copy, PartialEq, Eq, Structural)]
pub enum CryptoError {
    /// The key is not 16 bytes long or the nonce is not 12 bytes long.
    InvalidKeyMaterial,
    /// The plaintext is longer than AES-GCM can encrypt under one nonce.
    PlaintextTooLong,
    /// The integrity tag did not verify: wrong key, wrong nonce, or altered bytes.
    AuthenticationFailed,
}

/// Every way an operation on one file can fail.
#[derive(Debug, Clone, Copy, PartialEq, Eq, Structural)]
pub enum Error {
    /// The target file does not exist.
    Precondition,
    /// The credential string is not `<32 hex digits>#<24 hex digits>`.
    CredentialFormat,
    /// The cipher refused the operation.
    Crypto(CryptoError),
    /// The stored bytes are not a well-formed gzip stream.
    Codec,
    /// Reading, renaming or writing a file failed.
    Io,
    /// The host cannot supply the requested base directory.
    RootResolution,
}

} // verus!
