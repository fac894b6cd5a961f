//! Extractors for the raw single-stream compression formats (gzip, xz,
//! bzip2). Such a file holds exactly one logical entry: the decompressed
//! byte stream, written to a file named after the source file with its
//! compression suffix removed.

use vstd::prelude::*;
use crate::classify::spec_file_stem;
use crate::diag::io_error_message;
use crate::entries::{FsEntry, ExtractError, safe_rel_path, is_safe_rel_path};
use crate::text::str_to_chars;

verus! {

/// What inflating a complete gzip stream returns: the decompressed bytes,
/// or nothing when the input is not a well-formed gzip stream.
pub uninterp spec fn gzip_decoded(b: Seq<u8>) -> Option<Seq<u8>>;

/// What decompressing a complete xz stream returns.
pub uninterp spec fn xz_decoded(b: Seq<u8>) -> Option<Seq<u8>>;

/// What decompressing a complete bzip2 stream returns.
pub uninterp spec fn bzip2_decoded(b: Seq<u8>) -> Option<Seq<u8>>;

/// Relies on `flate2::read::GzDecoder`: inflation is a function of the
/// input bytes alone, and fails on ill-formed input.
#[verifier::external_body]
pub(crate) fn gz_decode(data: &[u8]) -> (r: Result<Vec<u8>, std::io::Error>)
    ensures
        r is Ok <==> gzip_decoded(data@) is Some,
        r is Ok ==> r->Ok_0@ == gzip_decoded(data@)->0,
{
    let mut dec = flate2::read::GzDecoder::new(data);
    let mut out = Vec::new();
    std::io::Read::read_to_end(&mut dec, &mut out)?;
    Ok(out)
}

/// Relies on `xz2::read::XzDecoder`: decompression is a function of the
/// input bytes alone, and fails on ill-formed input.
#[verifier::external_body]
pub(crate) fn xz_decode(data: &[u8]) -> (r: Result<Vec<u8>, std::io::Error>)
    ensures
        r is Ok <==> xz_decoded(data@) is Some,
        r is Ok ==> r->Ok_0@ == xz_decoded(data@)->0,
{
    let mut dec = xz2::read::XzDecoder::new(data);
    let mut out = Vec::new();
    std::io::Read::read_to_end(&mut dec, &mut out)?;
    Ok(out)
}

/// Relies on `bzip2::read::BzDecoder`: decompression is a function of the
/// input bytes alone, and fails on ill-formed input.
#[verifier::external_body]
pub(crate) fn bz2_decode(data: &[u8]) -> (r: Result<Vec<u8>, std::io::Error>)
    ensures
        r is Ok <==> bzip2_decoded(data@) is Some,
        r is Ok ==> r->Ok_0@ == bzip2_decoded(data@)->0,
{
    let mut dec = bzip2::read::BzDecoder::new(data);
    let mut out = Vec::new();
    std::io::Read::read_to_end(&mut dec, &mut out)?;
    Ok(out)
}

/// The name the single decompressed entry is written under: the source
/// file's stem, or a fixed fallback when the name yields none.
pub open spec fn spec_stream_output_name(name: Seq<char>) -> Seq<char> {
    if name.len() == 0 {
        "extracted"@
    } else {
        spec_file_stem(name)
    }
}

/// True when `es` is the single entry a raw stream extraction produces:
/// one plain file, named after the source, holding the decompressed bytes.
pub open spec fn single_stream_entry(es: Seq<FsEntry>, name: Seq<char>, out: Seq<u8>) -> bool {
    es.len() == 1 && es[0].path@ == spec_stream_output_name(name) && !es[0].is_dir && es[0].data@
        == out && es[0].unix_mode is None
}

/// The output name for a raw stream, as a string.
fn stream_output_name(file_name: &str) -> (r: String)
    ensures
        r@ == spec_stream_output_name(file_name@),
{
    let chars = str_to_chars(file_name);
    if chars.len() == 0 {
        String::from_str("extracted")
    } else {
        crate::destination::stem_string(&chars)
    }
}

/// Extracts a raw gzip file: one entry, the inflated stream, named after
/// the source file with its suffix removed; the derived name must stay
/// inside the destination.
pub fn extract_gz(file_name: &str, data: &[u8]) -> (r: Result<Vec<FsEntry>, ExtractError>)
    ensures
        r is Ok <==> safe_rel_path(spec_stream_output_name(file_name@)) && gzip_decoded(
            data@,
        ) is Some,
        r is Ok ==> single_stream_entry(r->Ok_0@, file_name@, gzip_decoded(data@)->0),
        r is Err ==> (r->Err_0 is UnsafeName <==> !safe_rel_path(
            spec_stream_output_name(file_name@),
        )),
        r is Err ==> r->Err_0 is Format || r->Err_0 is UnsafeName,
{
    let out_name = stream_output_name(file_name);
    if !is_safe_rel_path(out_name.as_str()) {
        return Err(ExtractError::UnsafeName(out_name));
    }
    match gz_decode(data) {
        Ok(out) => Ok(stream_entries(out_name, out)),
        Err(e) => Err(ExtractError::Format(io_error_message(&e))),
    }
}

/// Extracts a raw xz file: one entry, the decompressed stream, named after
/// the source file with its suffix removed; the derived name must stay
/// inside the destination.
pub fn extract_xz(file_name: &str, data: &[u8]) -> (r: Result<Vec<FsEntry>, ExtractError>)
    ensures
        r is Ok <==> safe_rel_path(spec_stream_output_name(file_name@)) && xz_decoded(
            data@,
        ) is Some,
        r is Ok ==> single_stream_entry(r->Ok_0@, file_name@, xz_decoded(data@)->0),
        r is Err ==> (r->Err_0 is UnsafeName <==> !safe_rel_path(
            spec_stream_output_name(file_name@),
        )),
        r is Err ==> r->Err_0 is Format || r->Err_0 is UnsafeName,
{
    let out_name = stream_output_name(file_name);
    if !is_safe_rel_path(out_name.as_str()) {
        return Err(ExtractError::UnsafeName(out_name));
    }
    match xz_decode(data) {
        Ok(out) => Ok(stream_entries(out_name, out)),
        Err(e) => Err(ExtractError::Format(io_error_message(&e))),
    }
}

/// Extracts a raw bzip2 file: one entry, the decompressed stream, named
/// after the source file with its suffix removed; the derived name must
/// stay inside the destination.
pub fn extract_bz2(file_name: &str, data: &[u8]) -> (r: Result<Vec<FsEntry>, ExtractError>)
    ensures
        r is Ok <==> safe_rel_path(spec_stream_output_name(file_name@)) && bzip2_decoded(
            data@,
        ) is Some,
        r is Ok ==> single_stream_entry(r->Ok_0@, file_name@, bzip2_decoded(data@)->0),
        r is Err ==> (r->Err_0 is UnsafeName <==> !safe_rel_path(
            spec_stream_output_name(file_name@),
        )),
        r is Err ==> r->Err_0 is Format || r->Err_0 is UnsafeName,
{
    let out_name = stream_output_name(file_name);
    if !is_safe_rel_path(out_name.as_str()) {
        return Err(ExtractError::UnsafeName(out_name));
    }
    match bz2_decode(data) {
        Ok(out) => Ok(stream_entries(out_name, out)),
        Err(e) => Err(ExtractError::Format(io_error_message(&e))),
    }
}

/// Wraps a decompressed stream as the single entry of its job, under an
/// already-derived output name.
fn stream_entries(out_name: String, out: Vec<u8>) -> (r: Vec<FsEntry>)
    ensures
        r@.len() == 1,
        r@[0].path == out_name,
        !r@[0].is_dir,
        r@[0].data@ == out@,
        r@[0].unix_mode is None,
{
    let entry = FsEntry { path: out_name, is_dir: false, data: out, unix_mode: None };
    let mut r: Vec<FsEntry> = Vec::new();
    r.push(entry);
    r
}

} // verus!
