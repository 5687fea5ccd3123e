use vstd::prelude::*;

use crypto::aead::AeadDecryptor;

verus! {

/// The outcome of opening an AES-256-GCM box with empty associated data:
/// `Some(plaintext)` exactly when the tag verifies for this key, nonce and
/// ciphertext, `None` otherwise. A function of the four byte strings alone.
pub uninterp spec fn gcm_open(
    key: Seq<u8>,
    iv: Seq<u8>,
    ciphertext: Seq<u8>,
    tag: Seq<u8>,
) -> Option<Seq<u8>>;

/// Relies on rust-crypto's `AesGcm` (`new` with `KeySize256` and empty
/// associated data, then `AeadDecryptor::decrypt`): the verdict and the
/// plaintext are functions of key, nonce, ciphertext and tag alone; the
/// plaintext has the ciphertext's length and is withheld when the tag does
/// not verify. `AesGcm::new` asserts the key and nonce lengths, so the
/// preconditions fix them.
#[verifier::external_body]
pub(crate) fn aes_gcm_open(key: &[u8], iv: &[u8], ciphertext: &[u8], tag: &[u8]) -> (r: Option<
    Vec<u8>,
>)
    requires
        key@.len() == 32,
        iv@.len() == 12,
    ensures
        r matches Some(p) ==> gcm_open(key@, iv@, ciphertext@, tag@) == Some(p@)
            && p@.len() == ciphertext@.len(),
        r is None ==> gcm_open(key@, iv@, ciphertext@, tag@) is None,
{
    let mut cipher = crypto::aes_gcm::AesGcm::new(crypto::aes::KeySize::KeySize256, key, iv, &[]);
    let mut plaintext = vec![0u8; ciphertext.len()];
    if cipher.decrypt(ciphertext, &mut plaintext, tag) {
        Some(plaintext)
    } else {
        None
    }
}

} // verus!
