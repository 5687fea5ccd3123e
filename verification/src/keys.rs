use vstd::prelude::*;
use vstd::slice::slice_index_get;

use crate::errors::WyrError;

verus! {

#[verifier::external_type_specification]
#[verifier::external_body]
#[verifier::reject_recursive_types(T)]
pub struct ExPKey<T>(openssl::pkey::PKey<T>);

#[verifier::external_type_specification]
#[verifier::external_body]
pub struct ExPublic(openssl::pkey::Public);

#[verifier::external_type_specification]
#[verifier::external_body]
pub struct ExPrivate(openssl::pkey::Private);

/// Whether a byte string parses as a PEM-encoded SubjectPublicKeyInfo for a
/// public key; a fact of the bytes alone, decided by the key loader.
pub uninterp spec fn peer_key_parses(pem: Seq<u8>) -> bool;

/// Whether a byte string parses as a PEM-encoded encrypted private key and
/// decrypts under the given passphrase; a fact of the two byte strings alone.
pub uninterp spec fn local_key_parses(pem: Seq<u8>, passphrase: Seq<u8>) -> bool;

/// A passphrase openssl can take at all: passphrases travel through its C
/// interface as zero-terminated strings, so one with an interior zero byte
/// cannot be passed and is refused up front.
pub open spec fn passphrase_ok(passphrase: Seq<u8>) -> bool {
    forall|i: int| 0 <= i < passphrase.len() ==> passphrase[i] != 0
}

/// The largest buffer openssl's memory BIO accepts: the length travels as a
/// C `int`, and the binding asserts the buffer fits before every PEM read.
pub const PEM_MAX_LEN: usize = 0x7fff_ffff;

/// A PEM buffer openssl can take at all (see `PEM_MAX_LEN`); anything larger
/// must be refused before it reaches a PEM reader.
pub open spec fn pem_len_ok(pem: Seq<u8>) -> bool {
    pem.len() <= PEM_MAX_LEN
}

/// The peer's public key, as loaded from the container's PEM region.
/// The handle is opaque; the PEM bytes it was parsed from identify it.
pub struct PeerKey {
    pub(crate) handle: openssl::pkey::PKey<openssl::pkey::Public>,
    pub(crate) loaded_from: Ghost<Seq<u8>>,
}

impl PeerKey {
    /// The PEM bytes this key was parsed from.
    pub closed spec fn pem(self) -> Seq<u8> {
        self.loaded_from@
    }
}

/// The recipient's long-term private key, decrypted with its passphrase.
/// The handle is opaque; the PEM bytes and passphrase it came from identify it.
pub struct LocalKey {
    pub(crate) handle: openssl::pkey::PKey<openssl::pkey::Private>,
    pub(crate) loaded_pem: Ghost<Seq<u8>>,
    pub(crate) loaded_pass: Ghost<Seq<u8>>,
}

impl LocalKey {
    /// The PEM bytes this key was parsed from.
    pub closed spec fn pem(self) -> Seq<u8> {
        self.loaded_pem@
    }

    /// The passphrase the PEM was decrypted with.
    pub closed spec fn passphrase(self) -> Seq<u8> {
        self.loaded_pass@
    }
}

/// Relies on openssl's `PKey::public_key_from_pem` (`PEM_read_bio_PUBKEY`):
/// whether the bytes parse as a public key is a function of the bytes alone,
/// and on success the handle holds exactly the key those bytes encode. The
/// memory BIO underneath asserts its buffer fits in a C `int`, so the
/// precondition keeps the PEM below that; the caller's 268-byte region
/// satisfies it trivially.
#[verifier::external_body]
pub(crate) fn load_peer(pem: &[u8]) -> (r: Result<PeerKey, WyrError>)
    requires
        pem_len_ok(pem@),
    ensures
        r matches Ok(k) ==> peer_key_parses(pem@) && k.pem() == pem@,
        r matches Err(e) ==> !peer_key_parses(pem@) && e == WyrError::BadPublicKey,
{
    match openssl::pkey::PKey::public_key_from_pem(pem) {
        Ok(handle) => Ok(PeerKey { handle, loaded_from: Ghost(pem@) }),
        Err(_) => Err(WyrError::BadPublicKey),
    }
}

/// Relies on openssl's `PKey::private_key_from_pem_passphrase`
/// (`PEM_read_bio_PrivateKey`): whether the bytes parse and decrypt under the
/// passphrase is a function of the two byte strings alone, and on success the
/// handle holds exactly the key they encode. That function turns the
/// passphrase into a C string and panics on an interior zero byte, and its
/// memory BIO asserts the PEM buffer fits in a C `int`, so the preconditions
/// exclude both.
#[verifier::external_body]
fn load_local_raw(pem: &[u8], passphrase: &[u8]) -> (r: Result<LocalKey, WyrError>)
    requires
        passphrase_ok(passphrase@),
        pem_len_ok(pem@),
    ensures
        r matches Ok(k) ==> local_key_parses(pem@, passphrase@) && k.pem() == pem@
            && k.passphrase() == passphrase@,
        r matches Err(e) ==> !local_key_parses(pem@, passphrase@) && e == WyrError::BadPrivateKey,
{
    match openssl::pkey::PKey::private_key_from_pem_passphrase(pem, passphrase) {
        Ok(handle) => Ok(LocalKey {
            handle,
            loaded_pem: Ghost(pem@),
            loaded_pass: Ghost(passphrase@),
        }),
        Err(_) => Err(WyrError::BadPrivateKey),
    }
}

/// Loads the private key. A PEM buffer too large for openssl's BIO (see
/// `PEM_MAX_LEN`) or a passphrase with an interior zero byte can never reach
/// openssl, let alone decrypt a key, so both are rejected up front as
/// `BadPrivateKey` like any other unusable key material.
pub(crate) fn load_local(pem: &[u8], passphrase: &[u8]) -> (r: Result<LocalKey, WyrError>)
    ensures
        r matches Ok(k) ==> passphrase_ok(passphrase@) && pem_len_ok(pem@)
            && local_key_parses(pem@, passphrase@)
            && k.pem() == pem@ && k.passphrase() == passphrase@,
        r matches Err(e) ==> e == WyrError::BadPrivateKey
            && !(passphrase_ok(passphrase@) && pem_len_ok(pem@)
                && local_key_parses(pem@, passphrase@)),
{
    if pem.len() > PEM_MAX_LEN {
        return Err(WyrError::BadPrivateKey);
    }
    let mut i: usize = 0;
    while i < passphrase.len()
        invariant
            i <= passphrase@.len(),
            forall|j: int| 0 <= j < i ==> passphrase@[j] != 0,
        decreases passphrase@.len() - i,
    {
        if *slice_index_get(passphrase, i) == 0 {
            return Err(WyrError::BadPrivateKey);
        }
        i += 1;
    }
    load_local_raw(pem, passphrase)
}

} // verus!
