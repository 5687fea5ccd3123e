use vstd::prelude::*;

use crate::errors::WyrError;
use crate::keys::{LocalKey, PeerKey};

verus! {

/// The ECDH shared secret, as a function of the private-key PEM, its
/// passphrase and the peer's public-key PEM — the two keys are functions of
/// those byte strings, and scalar multiplication is deterministic. `None`
/// when key agreement rejects the pair (for instance, different curves).
pub uninterp spec fn ecdh_secret(
    priv_pem: Seq<u8>,
    passphrase: Seq<u8>,
    pub_pem: Seq<u8>,
) -> Option<Seq<u8>>;

/// Relies on openssl's `Deriver` — `new`, `set_peer` and `derive_to_vec`
/// (`EVP_PKEY_derive`), taken as the one key-agreement operation: whether the
/// pair is accepted and the secret derived are functions of the two keys
/// alone, hence of the byte strings they were loaded from.
#[verifier::external_body]
pub(crate) fn derive_shared(local: &LocalKey, peer: &PeerKey) -> (r: Result<Vec<u8>, WyrError>)
    ensures
        r matches Ok(s) ==> ecdh_secret(local.pem(), local.passphrase(), peer.pem())
            == Some(s@),
        r matches Err(e) ==> ecdh_secret(local.pem(), local.passphrase(), peer.pem()) is None
            && e == WyrError::EcdhFailure,
{
    let mut deriver = match openssl::derive::Deriver::new(&local.handle) {
        Ok(d) => d,
        Err(_) => return Err(WyrError::EcdhFailure),
    };
    if deriver.set_peer(&peer.handle).is_err() {
        return Err(WyrError::EcdhFailure);
    }
    match deriver.derive_to_vec() {
        Ok(secret) => Ok(secret),
        Err(_) => Err(WyrError::EcdhFailure),
    }
}

} // verus!
