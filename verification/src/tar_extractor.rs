//! Extractors for TAR archives, plain or wrapped in gzip, xz or bzip2.
//! The container is decoded by the `tar` crate behind a trusted listing;
//! each entry's raw name bytes are decoded by the filename decoder before
//! they become a path, and a decoded name that would escape the
//! destination fails the job.

use vstd::prelude::*;
use crate::diag::io_error_message;
use crate::entries::{FsEntry, ExtractError, safe_rel_path, is_safe_rel_path};
use crate::filename::{decode_filename, spec_decode_filename};
use crate::stream_extractor::{gz_decode, xz_decode, bz2_decode, gzip_decoded, xz_decoded,
    bzip2_decoded};

verus! {

/// What parsing bytes as a TAR archive returns: for each entry in stream
/// order, its raw name bytes, whether it is a directory, and its content;
/// or nothing when the bytes do not parse as TAR.
pub uninterp spec fn tar_parse(b: Seq<u8>) -> Option<Seq<(Seq<u8>, bool, Seq<u8>)>>;

/// Relies on `tar::Archive`: the entry list (names, directory flags,
/// contents, in stream order) is a function of the archive bytes alone,
/// and ill-formed archives fail.
#[verifier::external_body]
fn tar_list(data: &[u8]) -> (r: Result<Vec<(Vec<u8>, bool, Vec<u8>)>, std::io::Error>)
    ensures
        r is Ok <==> tar_parse(data@) is Some,
        r is Ok ==> r->Ok_0.deep_view() == tar_parse(data@)->0,
{
    let mut archive = tar::Archive::new(data);
    let mut out = Vec::new();
    for entry in archive.entries()? {
        let mut entry = entry?;
        let name = entry.path_bytes().to_vec();
        let is_dir = entry.header().entry_type().is_dir();
        let mut content = Vec::new();
        std::io::Read::read_to_end(&mut entry, &mut content)?;
        out.push((name, is_dir, content));
    }
    Ok(out)
}

/// True when every entry's decoded name stays inside the destination.
pub open spec fn tar_names_safe(raw: Seq<(Seq<u8>, bool, Seq<u8>)>) -> bool {
    forall|i: int| 0 <= i < raw.len() ==> safe_rel_path(spec_decode_filename((#[trigger] raw[i]).0))
}

/// True when `es` is the decoded form of the raw TAR entries `raw`: same
/// order, names decoded, directory flags and contents kept.
pub open spec fn tar_entries_decoded(es: Seq<FsEntry>, raw: Seq<(Seq<u8>, bool, Seq<u8>)>) -> bool {
    es.len() == raw.len() && forall|i: int|
        0 <= i < raw.len() ==> (#[trigger] es[i]).path@ == spec_decode_filename(raw[i].0)
            && es[i].is_dir == raw[i].1 && es[i].data@ == raw[i].2 && es[i].unix_mode is None
}

/// Turns the trusted listing of a TAR stream into decoded entries:
/// succeeds exactly when the bytes parse and every decoded name stays
/// inside the destination.
#[verifier::loop_isolation(false)]
fn entries_from_tar(data: &[u8]) -> (r: Result<Vec<FsEntry>, ExtractError>)
    ensures
        r is Ok <==> tar_parse(data@) is Some && tar_names_safe(tar_parse(data@)->0),
        r is Ok ==> tar_entries_decoded(r->Ok_0@, tar_parse(data@)->0),
        r is Err ==> (r->Err_0 is Format <==> tar_parse(data@) is None),
        r is Err ==> (r->Err_0 is UnsafeName <==> tar_parse(data@) is Some),
{
    let raw = match tar_list(data) {
        Ok(raw) => raw,
        Err(e) => {
            return Err(ExtractError::Format(io_error_message(&e)));
        },
    };
    let ghost model = tar_parse(data@)->0;
    let mut es: Vec<FsEntry> = Vec::new();
    let mut i: usize = 0;
    while i < raw.len()
        invariant
            raw.deep_view() == model,
            i <= raw@.len(),
            es@.len() == i,
            forall|k: int|
                0 <= k < i ==> (#[trigger] es@[k]).path@ == spec_decode_filename(model[k].0)
                    && es@[k].is_dir == model[k].1 && es@[k].data@ == model[k].2
                    && es@[k].unix_mode is None,
            forall|k: int|
                0 <= k < i ==> safe_rel_path(spec_decode_filename((#[trigger] model[k]).0)),
        decreases raw@.len() - i,
    {
        let (name, is_dir, content) = &raw[i];
        proof {
            assert(raw.deep_view()[i as int] == (raw@[i as int].0@, raw@[i as int].1, raw@[
                i as int].2@));
        }
        let path = decode_filename(name.as_slice());
        if !is_safe_rel_path(path.as_str()) {
            proof {
                assert(!tar_names_safe(model)) by {
                    assert(!safe_rel_path(spec_decode_filename(model[i as int].0)));
                }
            }
            return Err(ExtractError::UnsafeName(path));
        }
        let entry = FsEntry { path, is_dir: *is_dir, data: content.clone(), unix_mode: None };
        es.push(entry);
        i = i + 1;
    }
    Ok(es)
}

/// Extracts a plain TAR archive from its bytes.
pub fn extract_tar(data: &[u8]) -> (r: Result<Vec<FsEntry>, ExtractError>)
    ensures
        r is Ok <==> tar_parse(data@) is Some && tar_names_safe(tar_parse(data@)->0),
        r is Ok ==> tar_entries_decoded(r->Ok_0@, tar_parse(data@)->0),
        r is Err ==> (r->Err_0 is Format <==> tar_parse(data@) is None),
        r is Err ==> r->Err_0 is Format || r->Err_0 is UnsafeName,
{
    entries_from_tar(data)
}

/// Extracts a gzip-compressed TAR archive: inflate, then read as TAR.
pub fn extract_tar_gz(data: &[u8]) -> (r: Result<Vec<FsEntry>, ExtractError>)
    ensures
        r is Ok <==> gzip_decoded(data@) is Some && tar_parse(gzip_decoded(data@)->0) is Some
            && tar_names_safe(tar_parse(gzip_decoded(data@)->0)->0),
        r is Ok ==> tar_entries_decoded(r->Ok_0@, tar_parse(gzip_decoded(data@)->0)->0),
        r is Err ==> r->Err_0 is Format || r->Err_0 is UnsafeName,
{
    match gz_decode(data) {
        Ok(inner) => entries_from_tar(inner.as_slice()),
        Err(e) => Err(ExtractError::Format(io_error_message(&e))),
    }
}

/// Extracts an xz-compressed TAR archive: decompress, then read as TAR.
pub fn extract_tar_xz(data: &[u8]) -> (r: Result<Vec<FsEntry>, ExtractError>)
    ensures
        r is Ok <==> xz_decoded(data@) is Some && tar_parse(xz_decoded(data@)->0) is Some
            && tar_names_safe(tar_parse(xz_decoded(data@)->0)->0),
        r is Ok ==> tar_entries_decoded(r->Ok_0@, tar_parse(xz_decoded(data@)->0)->0),
        r is Err ==> r->Err_0 is Format || r->Err_0 is UnsafeName,
{
    match xz_decode(data) {
        Ok(inner) => entries_from_tar(inner.as_slice()),
        Err(e) => Err(ExtractError::Format(io_error_message(&e))),
    }
}

/// Extracts a bzip2-compressed TAR archive: decompress, then read as TAR.
pub fn extract_tar_bz2(data: &[u8]) -> (r: Result<Vec<FsEntry>, ExtractError>)
    ensures
        r is Ok <==> bzip2_decoded(data@) is Some && tar_parse(bzip2_decoded(data@)->0) is Some
            && tar_names_safe(tar_parse(bzip2_decoded(data@)->0)->0),
        r is Ok ==> tar_entries_decoded(r->Ok_0@, tar_parse(bzip2_decoded(data@)->0)->0),
        r is Err ==> r->Err_0 is Format || r->Err_0 is UnsafeName,
{
    match bz2_decode(data) {
        Ok(inner) => entries_from_tar(inner.as_slice()),
        Err(e) => Err(ExtractError::Format(io_error_message(&e))),
    }
}

} // verus!
