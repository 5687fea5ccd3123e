use vstd::prelude::*;
use vstd::slice::{slice_subrange, slice_to_vec};

use crate::errors::WyrError;

verus! {

/// Length of the PEM-encoded public key embedded in every container.
pub const PEM_LEN: usize = 268;

/// Length of the AES-GCM nonce.
pub const IV_LEN: usize = 12;

/// Length of the AES-GCM authentication tag.
pub const TAG_LEN: usize = 16;

/// Length of the fixed trailer: public-key PEM, nonce and tag.
pub const TRAILER_LEN: usize = PEM_LEN + IV_LEN + TAG_LEN;

/// The ciphertext region: everything before the fixed trailer (may be empty).
pub open spec fn spec_ciphertext(blob: Seq<u8>) -> Seq<u8> {
    blob.subrange(0, blob.len() - TRAILER_LEN)
}

/// The embedded public-key PEM: the 268 bytes before nonce and tag.
pub open spec fn spec_peer_pem(blob: Seq<u8>) -> Seq<u8> {
    blob.subrange(blob.len() - TRAILER_LEN, blob.len() - (IV_LEN + TAG_LEN))
}

/// The nonce: the 12 bytes before the tag.
pub open spec fn spec_iv(blob: Seq<u8>) -> Seq<u8> {
    blob.subrange(blob.len() - (IV_LEN + TAG_LEN), blob.len() - TAG_LEN)
}

/// The authentication tag: the last 16 bytes.
pub open spec fn spec_tag(blob: Seq<u8>) -> Seq<u8> {
    blob.subrange(blob.len() - TAG_LEN, blob.len() as int)
}

/// The four non-overlapping regions of a container, split off by fixed
/// suffix arithmetic. The PEM contents are not validated here; that is the
/// key loader's job.
pub struct Regions {
    pub ciphertext: Vec<u8>,
    pub peer_pub_pem: Vec<u8>,
    pub iv: Vec<u8>,
    pub tag: Vec<u8>,
}

impl Regions {
    /// These regions are exactly the split of `blob`.
    pub open spec fn is_parse_of(self, blob: Seq<u8>) -> bool {
        &&& blob.len() >= TRAILER_LEN
        &&& self.ciphertext@ == spec_ciphertext(blob)
        &&& self.peer_pub_pem@ == spec_peer_pem(blob)
        &&& self.iv@ == spec_iv(blob)
        &&& self.tag@ == spec_tag(blob)
    }
}

/// Splits a container into ciphertext, public-key PEM, nonce and tag.
///
/// Total on every blob of at least `TRAILER_LEN` bytes; anything shorter is
/// rejected as `MalformedContainer`, since the trailer cannot exist.
pub fn parse_container(blob: &[u8]) -> (r: Result<Regions, WyrError>)
    ensures
        blob@.len() >= TRAILER_LEN ==> (r matches Ok(reg) && reg.is_parse_of(blob@)),
        blob@.len() < TRAILER_LEN ==> r == Err::<Regions, WyrError>(WyrError::MalformedContainer),
{
    let n = blob.len();
    if n < TRAILER_LEN {
        return Err(WyrError::MalformedContainer);
    }
    let ciphertext = slice_to_vec(slice_subrange(blob, 0, n - TRAILER_LEN));
    let peer_pub_pem = slice_to_vec(slice_subrange(blob, n - TRAILER_LEN, n - (IV_LEN + TAG_LEN)));
    let iv = slice_to_vec(slice_subrange(blob, n - (IV_LEN + TAG_LEN), n - TAG_LEN));
    let tag = slice_to_vec(slice_subrange(blob, n - TAG_LEN, n));
    Ok(Regions { ciphertext, peer_pub_pem, iv, tag })
}

/// Law: parsing loses nothing — on any blob long enough to hold the trailer,
/// the four regions concatenate back to the original input.
pub proof fn lemma_regions_concat(blob: Seq<u8>)
    requires
        blob.len() >= TRAILER_LEN,
    ensures
        spec_ciphertext(blob) + spec_peer_pem(blob) + spec_iv(blob) + spec_tag(blob) == blob,
{
    assert(spec_ciphertext(blob) + spec_peer_pem(blob) + spec_iv(blob) + spec_tag(blob) =~= blob);
}

/// Law: the trailer regions have their fixed lengths, and the ciphertext
/// takes all remaining bytes.
pub proof fn lemma_region_lengths(blob: Seq<u8>)
    requires
        blob.len() >= TRAILER_LEN,
    ensures
        spec_ciphertext(blob).len() == blob.len() - TRAILER_LEN,
        spec_peer_pem(blob).len() == PEM_LEN,
        spec_iv(blob).len() == IV_LEN,
        spec_tag(blob).len() == TAG_LEN,
{
}

} // verus!
