use vstd::prelude::*;

verus! {

/// The failure modes of the container-decryption pipeline. Every stage
/// reports exactly one of these; the driver stops at the first failure.
///
/// A wrong passphrase and a malformed private key both surface as
/// `BadPrivateKey`: telling them apart would hand an attacker a passphrase
/// oracle.
#[derive(Clone, Copy, Debug, PartialEq, Eq, Structural)]
pub enum WyrError {
    /// The container is shorter than its fixed 296-byte trailer.
    MalformedContainer,
    /// The embedded public-key region does not parse as a PEM public key.
    BadPublicKey,
    /// The private key does not parse or does not decrypt under the
    /// passphrase given.
    BadPrivateKey,
    /// ECDH rejected the key pair (for instance, keys on different curves).
    EcdhFailure,
    /// The authentication tag did not verify; no plaintext is released.
    AuthFailed,
    /// Some other failure of a cryptographic primitive.
    CryptoError,
    /// The authenticated plaintext is not a well-formed xz/LZMA stream.
    DecompressionError,
    /// Reading the container or writing the output failed.
    IoError,
}

/// The short diagnostic that belongs to each failure kind.
pub open spec fn spec_describe(e: WyrError) -> Seq<char> {
    match e {
        WyrError::MalformedContainer => "container shorter than its fixed trailer"@,
        WyrError::BadPublicKey => "embedded public key does not parse"@,
        WyrError::BadPrivateKey => "private key does not parse or decrypt"@,
        WyrError::EcdhFailure => "key agreement rejected the key pair"@,
        WyrError::AuthFailed => "authentication tag did not verify"@,
        WyrError::CryptoError => "cryptographic primitive failed"@,
        WyrError::DecompressionError => "plaintext is not an xz/LZMA stream"@,
        WyrError::IoError => "file could not be read or written"@,
    }
}

impl WyrError {
    /// A short diagnostic line for error reports.
    pub fn describe(&self) -> (r: &'static str)
        ensures
            r@ == spec_describe(*self),
    {
        match self {
            WyrError::MalformedContainer => "container shorter than its fixed trailer",
            WyrError::BadPublicKey => "embedded public key does not parse",
            WyrError::BadPrivateKey => "private key does not parse or decrypt",
            WyrError::EcdhFailure => "key agreement rejected the key pair",
            WyrError::AuthFailed => "authentication tag did not verify",
            WyrError::CryptoError => "cryptographic primitive failed",
            WyrError::DecompressionError => "plaintext is not an xz/LZMA stream",
            WyrError::IoError => "file could not be read or written",
        }
    }
}

} // verus!
