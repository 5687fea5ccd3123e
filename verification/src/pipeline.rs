use vstd::prelude::*;

use crate::aead::{aes_gcm_open, gcm_open};
use crate::agreement::{derive_shared, ecdh_secret};
use crate::container::{
    lemma_region_lengths, parse_container, spec_ciphertext, spec_iv, spec_peer_pem, spec_tag,
    TRAILER_LEN,
};
use crate::decompress::{lzma_decompress, xz_unpacked};
use crate::errors::WyrError;
use crate::kdf::{derive_key, sha3_256_digest};
use crate::keys::{
    load_local, load_peer, local_key_parses, passphrase_ok, peer_key_parses, pem_len_ok,
};

verus! {

/// What decrypting and decompressing a payload yields, once the shared
/// secret is fixed: SHA3-256 of the secret keys AES-256-GCM over the
/// ciphertext with empty associated data; only a verified tag releases the
/// plaintext, and the plaintext must then decode as an xz/LZMA stream.
pub open spec fn spec_payload(
    secret: Seq<u8>,
    ciphertext: Seq<u8>,
    iv: Seq<u8>,
    tag: Seq<u8>,
) -> Result<Seq<u8>, WyrError> {
    match gcm_open(sha3_256_digest(secret), iv, ciphertext, tag) {
        Option::Some(plaintext) => match xz_unpacked(plaintext) {
            Option::Some(pcm) => Ok(pcm),
            Option::None => Err(WyrError::DecompressionError),
        },
        Option::None => Err(WyrError::AuthFailed),
    }
}

/// The whole pipeline as a function of its three inputs: the container blob,
/// the private-key PEM and the passphrase. Each stage's failure is the
/// pipeline's outcome; nothing past a failing stage runs.
pub open spec fn spec_pipeline(
    blob: Seq<u8>,
    priv_pem: Seq<u8>,
    passphrase: Seq<u8>,
) -> Result<Seq<u8>, WyrError> {
    if blob.len() < TRAILER_LEN {
        Err(WyrError::MalformedContainer)
    } else if !peer_key_parses(spec_peer_pem(blob)) {
        Err(WyrError::BadPublicKey)
    } else if !(passphrase_ok(passphrase) && pem_len_ok(priv_pem) && local_key_parses(
        priv_pem,
        passphrase,
    )) {
        Err(WyrError::BadPrivateKey)
    } else {
        match ecdh_secret(priv_pem, passphrase, spec_peer_pem(blob)) {
            Option::Some(secret) => spec_payload(
                secret,
                spec_ciphertext(blob),
                spec_iv(blob),
                spec_tag(blob),
            ),
            Option::None => Err(WyrError::EcdhFailure),
        }
    }
}

/// Turns a ciphertext into PCM once the shared secret is known: derives the
/// AES-256 key by SHA3-256, opens the AES-GCM box (empty associated data),
/// and decompresses the plaintext. The plaintext never leaves this function
/// when the tag fails to verify.
pub fn decrypt_payload(secret: &[u8], ciphertext: &[u8], iv: &[u8], tag: &[u8]) -> (r: Result<
    Vec<u8>,
    WyrError,
>)
    requires
        iv@.len() == 12,
    ensures
        (match r {
            Ok(pcm) => spec_payload(secret@, ciphertext@, iv@, tag@) == Ok::<
                Seq<u8>,
                WyrError,
            >(pcm@),
            Err(e) => spec_payload(secret@, ciphertext@, iv@, tag@) == Err::<
                Seq<u8>,
                WyrError,
            >(e),
        }),
{
    let key = derive_key(secret);
    let plaintext = match aes_gcm_open(key.as_slice(), iv, ciphertext, tag) {
        Some(p) => p,
        None => {
            return Err(WyrError::AuthFailed);
        },
    };
    match lzma_decompress(plaintext.as_slice()) {
        Some(pcm) => Ok(pcm),
        None => Err(WyrError::DecompressionError),
    }
}

/// The container-decryption pipeline: splits the blob, loads the embedded
/// public key and the passphrase-protected private key, agrees on a shared
/// secret by ECDH, derives the AES-256 key by SHA3-256, opens the AES-GCM
/// box and decompresses the plaintext into PCM bytes.
///
/// The outcome — the PCM bytes on success, the first failing stage's error
/// otherwise — is exactly `spec_pipeline` of the three inputs.
pub fn decrypt_wyr(blob: &[u8], private_pem: &[u8], passphrase: &[u8]) -> (r: Result<
    Vec<u8>,
    WyrError,
>)
    ensures
        (match r {
            Ok(pcm) => spec_pipeline(blob@, private_pem@, passphrase@) == Ok::<
                Seq<u8>,
                WyrError,
            >(pcm@),
            Err(e) => spec_pipeline(blob@, private_pem@, passphrase@) == Err::<
                Seq<u8>,
                WyrError,
            >(e),
        }),
{
    let regions = match parse_container(blob) {
        Ok(reg) => reg,
        Err(e) => {
            return Err(e);
        },
    };
    proof {
        lemma_region_lengths(blob@);
    }
    let peer = match load_peer(regions.peer_pub_pem.as_slice()) {
        Ok(k) => k,
        Err(e) => {
            return Err(e);
        },
    };
    let local = match load_local(private_pem, passphrase) {
        Ok(k) => k,
        Err(e) => {
            return Err(e);
        },
    };
    let secret = match derive_shared(&local, &peer) {
        Ok(s) => s,
        Err(e) => {
            return Err(e);
        },
    };
    decrypt_payload(
        secret.as_slice(),
        regions.ciphertext.as_slice(),
        regions.iv.as_slice(),
        regions.tag.as_slice(),
    )
}

/// Law: the pipeline is deterministic. Its outcome is a function of the
/// container, the private-key PEM and the passphrase alone, so two runs on
/// the same inputs agree byte for byte.
pub proof fn lemma_pipeline_deterministic(
    blob: Seq<u8>,
    priv_pem: Seq<u8>,
    passphrase: Seq<u8>,
    r1: Result<Seq<u8>, WyrError>,
    r2: Result<Seq<u8>, WyrError>,
)
    requires
        r1 == spec_pipeline(blob, priv_pem, passphrase),
        r2 == spec_pipeline(blob, priv_pem, passphrase),
    ensures
        r1 == r2,
{
}

} // verus!
