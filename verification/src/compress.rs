//! Stream compression for archive members: gzip at the default level, and
//! multi-threaded xz at preset 6 with one worker per logical CPU. Both are
//! outside encoders working on in-memory byte strings. Their exact output
//! is not pinned down — the xz frame layout depends on the worker count of
//! the machine — but both are lossless: what ties the compressed members
//! to their sources is that decoding gives the input back exactly, stated
//! through the decoders' named results.

use vstd::prelude::*;

use crate::error::{Error, ErrorKind};

verus! {

/// What gzip-decoding a byte string yields: the decompressed bytes, or
/// nothing for a stream no decoder accepts. Decoding is a function of the
/// bytes alone.
pub uninterp spec fn gz_decode(bytes: Seq<u8>) -> Option<Seq<u8>>;

/// What xz-decoding a byte string yields: the decompressed bytes, or
/// nothing for a stream no decoder accepts. Decoding is a function of the
/// bytes alone.
pub uninterp spec fn xz_decode(bytes: Seq<u8>) -> Option<Seq<u8>>;

/// Relies on flate2's GzBuilder: gzip-compresses the input at the default
/// compression level. The encoder is lossless: its output decodes
/// (flate2's GzDecoder) back to the input, exactly.
#[verifier::external_body]
pub fn create_gz(data: &Vec<u8>) -> (r: Result<Vec<u8>, Error>)
    ensures
        r matches Ok(out) ==> gz_decode(out@) == Some(data@),
        r matches Err(e) ==> e.spec_kind() == ErrorKind::IoError,
{
    let mut enc = flate2::GzBuilder::new().write(Vec::new(), flate2::Compression::default());
    if let Err(err) = std::io::Write::write_all(&mut enc, data.as_slice()) {
        return Err(Error::from_string(ErrorKind::IoError, format!("{err}")));
    }
    enc.finish().map_err(|err| Error::from_string(ErrorKind::IoError, format!("{err}")))
}

/// Relies on xz2's MtStreamBuilder and XzEncoder: compresses the input as
/// one xz stream at preset 6, with as many worker threads as the host has
/// logical CPUs (num_cpus::get). The encoder is lossless: whatever frame
/// layout the workers produce, its output decodes (xz2's XzDecoder) back
/// to the input, exactly.
#[verifier::external_body]
pub fn create_xz2(data: &Vec<u8>) -> (r: Result<Vec<u8>, Error>)
    ensures
        r matches Ok(out) ==> xz_decode(out@) == Some(data@),
        r matches Err(e) ==> e.spec_kind() == ErrorKind::Lz2EncodeError,
{
    let stream = match xz2::stream::MtStreamBuilder::new().preset(6).threads(
        num_cpus::get() as u32,
    ).encoder() {
        Ok(stream) => stream,
        Err(err) => return Err(Error::from_string(ErrorKind::Lz2EncodeError, format!("{err}"))),
    };
    let mut enc = xz2::write::XzEncoder::new_stream(Vec::new(), stream);
    if let Err(err) = std::io::Write::write_all(&mut enc, data.as_slice()) {
        return Err(Error::from_string(ErrorKind::Lz2EncodeError, format!("{err}")));
    }
    enc.finish().map_err(|err| Error::from_string(ErrorKind::Lz2EncodeError, format!("{err}")))
}

} // verus!
