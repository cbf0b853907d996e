use vstd::prelude::*;
use std::io::Read;
use std::io::Write;
use crate::error::Error;

verus! {

/// The gzip stream that flate2 writes for `data` at its best compression level.
pub uninterp spec fn gzip_of(data: Seq<u8>) -> Seq<u8>;

/// What flate2's gzip decoder reads back from `data`, or `None` where `data` is
/// not a well-formed gzip stream.
pub uninterp spec fn gunzip_of(data: Seq<u8>) -> Option<Seq<u8>>;

/// The bytes held by an optional buffer.
pub open spec fn bytes_of(r: Option<Vec<u8>>) -> Option<Seq<u8>> {
    match r {
        Some(v) => Some(v@),
        None => None,
    }
}

/// Relies on flate2's `GzEncoder` (level `Compression::best()`) writing into a
/// `Vec`: writing to memory does not fail, and the stream depends on the input
/// bytes alone.
#[verifier::external_body]
fn gzip_encode(data: &[u8]) -> (r: Option<Vec<u8>>)
    ensures
        bytes_of(r) == Some(gzip_of(data@)),
{
    let mut encoder = flate2::write::GzEncoder::new(Vec::new(), flate2::Compression::best());
    encoder.write_all(data).ok()?;
    encoder.finish().ok()
}

/// Relies on flate2's `GzDecoder` read to the end: it yields the decoded bytes of
/// a well-formed stream, and gives back exactly what `GzEncoder` was fed.
#[verifier::external_body]
fn gzip_decode(data: &[u8]) -> (r: Option<Vec<u8>>)
    ensures
        bytes_of(r) == gunzip_of(data@),
        forall|x: Seq<u8>| #[trigger] gzip_of(x) == data@ ==> bytes_of(r) == Some(x),
{
    let mut decoder = flate2::read::GzDecoder::new(data);
    let mut out = Vec::new();
    decoder.read_to_end(&mut out).ok()?;
    Some(out)
}

/// Compresses `data` into a gzip stream.
pub fn compress(data: &[u8]) -> (r: Vec<u8>)
    ensures
        r@ == gzip_of(data@),
{
    match gzip_encode(data) {
        Some(v) => v,
        None => {
            proof {
                assert(false);
            }
            Vec::new()
        },
    }
}

/// Decompresses a gzip stream. Whatever `compress` produced for some bytes comes
/// back as exactly those bytes; malformed or truncated input is a codec error.
pub fn decompress(data: &[u8]) -> (r: Result<Vec<u8>, Error>)
    ensures
        match gunzip_of(data@) {
            Some(x) => r matches Ok(v) && v@ == x,
            None => r == Err::<Vec<u8>, Error>(Error::Codec),
        },
        forall|x: Seq<u8>| #[trigger] gzip_of(x) == data@ ==> (r matches Ok(v) && v@ == x),
{
    match gzip_decode(data) {
        Some(v) => Ok(v),
        None => Err(Error::Codec),
    }
}

} // verus!
