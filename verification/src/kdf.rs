use vstd::prelude::*;

use crypto::digest::Digest;

verus! {

/// The SHA3-256 digest (FIPS 202, not Keccak-256) of a byte string: a
/// 32-byte function of the input alone. The full digest is used verbatim as
/// the AES-256 key — that exact derivation is part of the wire format.
pub uninterp spec fn sha3_256_digest(data: Seq<u8>) -> Seq<u8>;

/// Relies on rust-crypto's `Sha3::sha3_256` (with `Digest::input` and
/// `Digest::result`): the digest is a function of the input bytes alone and
/// fills the 32-byte output exactly.
#[verifier::external_body]
pub(crate) fn derive_key(secret: &[u8]) -> (r: [u8; 32])
    ensures
        r@ == sha3_256_digest(secret@),
{
    let mut hasher = crypto::sha3::Sha3::sha3_256();
    hasher.input(secret);
    let mut key = [0u8; 32];
    hasher.result(&mut key);
    key
}

} // verus!
