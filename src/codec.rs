use vstd::prelude::*;
use std::io::Read;
use std::io::Write;
use crate::request::TransferError;

verus! {

/// std's I/O error, which flate2's readers and writers return.
#[verifier::external_type_specification]
#[verifier::external_body]
pub struct ExIoError(std::io::Error);

/// The gzip stream that flate2 writes for these bytes at the default level.
pub uninterp spec fn gzip_of(data: Seq<u8>) -> Seq<u8>;

/// What flate2's gzip decoder reads out of these bytes, or `None` where it
/// reports an error.
pub uninterp spec fn gunzip_of(data: Seq<u8>) -> Option<Seq<u8>>;

/// The fixed ten-byte header plus the eight-byte CRC-32 and size trailer.
pub open spec fn min_gzip_len() -> nat {
    18
}

/// A full ten-byte header is present and opens with the two magic bytes and
/// the deflate method byte.
pub open spec fn has_gzip_magic(data: Seq<u8>) -> bool {
    data.len() >= 10 && data[0] == 0x1f && data[1] == 0x8b && data[2] == 8
}

/// What a successful compression of `data` gives: flate2's gzip stream of
/// it, with a full header and trailer, which decodes back to `data`.
pub open spec fn is_stream_of(stream: Seq<u8>, data: Seq<u8>) -> bool {
    stream == gzip_of(data) && has_gzip_magic(stream) && stream.len() >= min_gzip_len()
        && has_size_trailer(stream, data) && gunzip_of(stream) == Some(data)
}

/// Four bytes of a number, least significant first.
pub open spec fn le32(n: nat) -> Seq<u8> {
    seq![
        (n % 256) as u8,
        ((n / 256) % 256) as u8,
        ((n / 65536) % 256) as u8,
        ((n / 16777216) % 256) as u8,
    ]
}

/// The stream ends with the size field of the gzip trailer: the length of
/// the uncompressed data modulo 2^32.
pub open spec fn has_size_trailer(stream: Seq<u8>, data: Seq<u8>) -> bool {
    stream.len() >= 4 && stream.subrange(stream.len() - 4, stream.len() as int) == le32(
        data.len() % 0x1_0000_0000,
    )
}

/// The bytes are a strict prefix of a complete gzip stream, as left behind
/// when the stream was not finished.
pub open spec fn is_cut_stream(data: Seq<u8>) -> bool {
    exists|b: Seq<u8>|
        data.len() < #[trigger] gzip_of(b).len() && data == gzip_of(b).subrange(0, data.len() as int)
}

/// Relies on flate2::write::GzEncoder (new, write_all, finish) writing into
/// a `Vec` at `Compression::default()`: the output is the gzip stream of the
/// input; it opens with the header that GzBuilder writes (0x1f 0x8b 8, then
/// seven more bytes) and ends with the eight-byte trailer, whose last four
/// bytes are the input length modulo 2^32; flate2's decoder reads the input
/// back out of it. Writing into a `Vec` cannot fail, so neither does this.
#[verifier::external_body]
fn gzip_encode(data: &[u8]) -> (r: Result<Vec<u8>, std::io::Error>)
    ensures
        r is Ok,
        r is Ok ==> r->Ok_0@ == gzip_of(data@),
        r is Ok ==> has_gzip_magic(r->Ok_0@),
        r is Ok ==> r->Ok_0@.len() >= min_gzip_len(),
        r is Ok ==> has_size_trailer(r->Ok_0@, data@),
        r is Ok ==> gunzip_of(r->Ok_0@) == Some(data@),
{
    let mut encoder = flate2::write::GzEncoder::new(Vec::new(), flate2::Compression::default());
    encoder.write_all(data)?;
    encoder.finish()
}

/// Relies on flate2::read::GzDecoder with `read_to_end`: the bytes it reads
/// out, or its error. Its header parser needs ten bytes and rejects a stream
/// that does not open with 0x1f 0x8b 8. A stream that ends early is an
/// error: in the header or the trailer (`read_into` at end of input), or in
/// the deflate data ("incomplete deflate stream").
#[verifier::external_body]
fn gzip_decode(data: &[u8]) -> (r: Result<Vec<u8>, std::io::Error>)
    ensures
        r is Ok <==> gunzip_of(data@) is Some,
        r is Ok ==> gunzip_of(data@) == Some(r->Ok_0@),
        !has_gzip_magic(data@) ==> r is Err,
        is_cut_stream(data@) ==> r is Err,
{
    let mut decoder = flate2::read::GzDecoder::new(data);
    let mut out = Vec::new();
    decoder.read_to_end(&mut out)?;
    Ok(out)
}

/// Compresses a whole input into one gzip stream, which always succeeds.
/// The stream decodes back to exactly the input, so `decompress` returns it.
pub fn compress(data: &[u8]) -> (r: Result<Vec<u8>, TransferError>)
    ensures
        r matches Ok(v) && is_stream_of(v@, data@),
{
    match gzip_encode(data) {
        Ok(v) => Ok(v),
        Err(_) => Err(TransferError::CopyFailure),
    }
}

/// Decompresses one gzip stream; anything the decoder rejects is a corrupt
/// stream.
pub fn decompress(data: &[u8]) -> (r: Result<Vec<u8>, TransferError>)
    ensures
        r is Ok <==> gunzip_of(data@) is Some,
        match r {
            Ok(v) => gunzip_of(data@) == Some(v@),
            Err(e) => e == TransferError::CorruptStream,
        },
        !has_gzip_magic(data@) ==> r == Err::<Vec<u8>, TransferError>(TransferError::CorruptStream),
        is_cut_stream(data@) ==> r == Err::<Vec<u8>, TransferError>(TransferError::CorruptStream),
{
    match gzip_decode(data) {
        Ok(v) => Ok(v),
        Err(_) => Err(TransferError::CorruptStream),
    }
}

} // verus!
