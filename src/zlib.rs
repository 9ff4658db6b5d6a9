//! The call into async-compression that inflates binary frames.

use vstd::prelude::*;

verus! {

/// The bytes that the zlib stream `b` inflates to; `None` where `b` is not
/// a complete zlib stream.
pub uninterp spec fn zlib_inflated(b: Seq<u8>) -> Option<Seq<u8>>;

/// Relies on async_compression's tokio `ZlibDecoder` over an in-memory
/// cursor, read to its end: the whole stream is inflated, and a malformed or
/// truncated one gives an error.
#[verifier::external_body]
pub(crate) fn inflate(b: &[u8]) -> (r: Option<Vec<u8>>)
    ensures
        r is Some <==> zlib_inflated(b@) is Some,
        r matches Some(v) ==> zlib_inflated(b@) == Some(v@),
{
    let mut decoder = async_compression::tokio::bufread::ZlibDecoder::new(std::io::Cursor::new(b));
    let mut out = Vec::new();
    let read = tokio::io::AsyncReadExt::read_to_end(&mut decoder, &mut out);
    match futures_util::FutureExt::now_or_never(read) {
        Some(Ok(_)) => Some(out),
        _ => None,
    }
}

} // verus!
