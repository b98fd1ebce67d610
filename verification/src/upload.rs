//! The best-effort replay upload: the raw replay snapshot is wrapped in the
//! fixed binary envelope, gzip-compressed, and PUT to the destination the
//! report mutation granted. Failure at any step is reported to the caller to
//! log and swallow; an upload failure never re-queues the report.

use vstd::prelude::*;
use std::io::Write;
use crate::envelope::{add_slp_header_and_footer, spec_envelope};

verus! {

/// The gzip stream that the default-level encoder produces for a byte
/// string; a function of the input alone for the compressor this crate
/// links.
pub uninterp spec fn gzip_of(data: Seq<u8>) -> Seq<u8>;

/// Relies on flate2::write::GzEncoder at the default compression level:
/// writing the whole input and finishing the stream yields its gzip
/// encoding. The encoder's write-side errors come only from its sink, and a
/// growable buffer cannot fail, so the result is always `Ok`; the error arm
/// stands only so that nothing is unwrapped.
#[verifier::external_body]
fn compress_to_gzip(input: &Vec<u8>) -> (r: Result<Vec<u8>, String>)
    ensures
        r is Ok,
        r matches Ok(v) ==> v@ == gzip_of(input@),
{
    let mut encoder = flate2::write::GzEncoder::new(Vec::new(), flate2::Compression::default());
    if let Err(e) = encoder.write_all(input.as_slice()) {
        return Err(format!("{e}"));
    }
    match encoder.finish() {
        Ok(v) => Ok(v),
        Err(e) => Err(format!("{e}")),
    }
}

/// Builds the bytes PUT to the upload destination: the raw replay snapshot
/// wrapped in the fixed envelope, then gzip-compressed. Building always
/// succeeds, so a PUT is always owed once a destination is granted; the
/// `Err` arm exists only for the caller to log, should the compressor ever
/// gain a failing path.
pub fn build_upload_body(replay: &Vec<u8>) -> (r: Result<Vec<u8>, String>)
    requires
        replay@.len() <= u32::MAX,
    ensures
        r is Ok,
        r matches Ok(v) ==> v@ == gzip_of(spec_envelope(replay@)),
{
    let contents = add_slp_header_and_footer(replay);
    compress_to_gzip(&contents)
}

} // verus!
