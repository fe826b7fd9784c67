//! bzip2 decompression of in-memory byte strings, behind one trusted
//! wrapper. The BSDIFF40 engine decodes its three substreams through it, and
//! the update driver extracts downloaded artifacts through it.

use vstd::prelude::*;

use crate::error::Error;

verus! {

/// What bzip2 decompression yields on a byte string: the decoded bytes of
/// the single stream at its start (bytes after that stream are ignored), or
/// `None` where no whole stream can be decoded. The result depends on the
/// input bytes alone.
pub uninterp spec fn bunzip_of(s: Seq<u8>) -> Option<Seq<u8>>;

/// Relies on bzip2's `read::BzDecoder`: decoding a byte string to the end of
/// its single compressed stream, deterministically in the input bytes.
#[verifier::external_body]
fn bz_decompress(data: &[u8]) -> (r: Result<Vec<u8>, Error>)
    ensures
        match r {
            Ok(v) => bunzip_of(data@) == Some(v@),
            Err(e) => bunzip_of(data@) is None && e == Error::DecodeError,
        },
{
    let mut decoder = bzip2::read::BzDecoder::new(data);
    let mut out = Vec::new();
    match std::io::Read::read_to_end(&mut decoder, &mut out) {
        Ok(_) => Ok(out),
        Err(_) => Err(Error::DecodeError),
    }
}

/// Decompresses one bzip2 stream, as the update driver extracts each
/// downloaded artifact.
pub fn decompress(data: &[u8]) -> (r: Result<Vec<u8>, Error>)
    ensures
        match r {
            Ok(v) => bunzip_of(data@) == Some(v@),
            Err(e) => bunzip_of(data@) is None && e == Error::DecodeError,
        },
{
    bz_decompress(data)
}

} // verus!
