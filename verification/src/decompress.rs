use vstd::prelude::*;

verus! {

/// What an xz/LZMA stream decodes to: `Some(bytes)` exactly when the input
/// is a well-formed stream, `None` when it is truncated, corrupted or not
/// LZMA at all. A function of the input bytes alone.
pub uninterp spec fn xz_unpacked(data: Seq<u8>) -> Option<Seq<u8>>;

/// Relies on rust-lzma's `decompress` (liblzma): whether the bytes form a
/// well-formed stream and what they decode to are functions of the bytes
/// alone.
#[verifier::external_body]
pub(crate) fn lzma_decompress(data: &[u8]) -> (r: Option<Vec<u8>>)
    ensures
        r matches Some(p) ==> xz_unpacked(data@) == Some(p@),
        r is None ==> xz_unpacked(data@) is None,
{
    match lzma::decompress(data) {
        Ok(out) => Some(out),
        Err(_) => None,
    }
}

} // verus!
