//! Decryption pipeline for `.wyr` audio containers.
//!
//! A `.wyr` container is a byte string with a fixed 296-byte trailer: the
//! AES-256-GCM ciphertext comes first, followed by the sender's ephemeral
//! public key as a 268-byte PEM, a 12-byte nonce and a 16-byte tag. The
//! recipient's passphrase-protected private key and the embedded public key
//! are combined by ECDH; SHA3-256 of the shared secret is the AES-256 key;
//! the authenticated plaintext is an xz/LZMA stream whose decompressed bytes
//! are raw PCM audio.
//!
//! The parsing, key handling, decryption and decompression stages live here
//! with their contracts; file reading, the passphrase prompt and the final
//! WAV conversion are the surrounding program's business.

pub mod aead;
pub mod agreement;
pub mod container;
pub mod decompress;
pub mod errors;
pub mod kdf;
pub mod keys;
pub mod logger;
pub mod pipeline;
