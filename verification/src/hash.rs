//! Streaming checksums used by the packaging pipeline: MD5 for the package's
//! file-manifest digest list, SHA-256 for integrity-verifying downloaded
//! tool binaries. The digests themselves come from outside crates; their
//! results are named so that everything built on top of them is exact.

use vstd::prelude::*;

use crate::error::Error;
use crate::text::{hex_encode, spec_hex};

verus! {

/// The 16-byte MD5 digest of a byte string.
pub uninterp spec fn md5_of(data: Seq<u8>) -> Seq<u8>;

/// The 32-byte SHA-256 digest of a byte string.
pub uninterp spec fn sha256_of(data: Seq<u8>) -> Seq<u8>;

/// Relies on md5::compute: the MD5 digest of the input, 16 bytes,
/// a function of the input alone.
#[verifier::external_body]
fn md5_digest(data: &Vec<u8>) -> (r: Vec<u8>)
    ensures
        r@ == md5_of(data@),
        r@.len() == 16,
{
    md5::compute(data.as_slice()).0.to_vec()
}

/// Relies on sha2::Sha256::digest: the SHA-256 digest of the input,
/// 32 bytes, a function of the input alone.
#[verifier::external_body]
fn sha256_digest(data: &Vec<u8>) -> (r: Vec<u8>)
    ensures
        r@ == sha256_of(data@),
        r@.len() == 32,
{
    <sha2::Sha256 as sha2::Digest>::digest(data.as_slice()).to_vec()
}

/// The MD5 digest of the input, rendered as 32 lower-case hex digits.
pub fn md5_hex(data: &Vec<u8>) -> (s: String)
    ensures
        s@ == spec_hex(md5_of(data@)),
        s@.len() == 32,
{
    let digest = md5_digest(data);
    let s = hex_encode(&digest);
    proof {
        crate::text::lemma_spec_hex_len(digest@);
    }
    s
}

/// The SHA-256 digest of the input, rendered as 64 lower-case hex digits.
pub fn sha256sum(data: &Vec<u8>) -> (r: Result<String, Error>)
    ensures
        r matches Ok(s) && s@ == spec_hex(sha256_of(data@)) && s@.len() == 64,
{
    let digest = sha256_digest(data);
    let s = hex_encode(&digest);
    proof {
        crate::text::lemma_spec_hex_len(digest@);
    }
    Ok(s)
}

} // verus!
