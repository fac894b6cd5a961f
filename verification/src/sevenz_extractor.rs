//! Extractor for 7z archives. The `sevenz_rust` decoder can panic inside
//! its header parse on a crafted archive (it writes entry names through an
//! index it bounds-checks only afterwards), so no trusted contract here
//! may promise that calling it returns cleanly on every input. The caller
//! therefore drives the listing outside the library — catching the decoder
//! at a boundary where a panic can be contained — and hands the verified
//! logic either the listed entries or nothing. What the library owns is
//! exact: name decoding, directory flags, contents, and the refusal of
//! names that would escape the destination.

use vstd::prelude::*;
use crate::entries::{FsEntry, ExtractError, safe_rel_path, is_safe_rel_path};
use crate::filename::{decode_filename, spec_decode_filename};

verus! {

/// True when every listed entry's decoded name stays inside the
/// destination.
pub open spec fn sevenz_names_safe(raw: Seq<(Seq<u8>, bool, Seq<u8>)>) -> bool {
    forall|i: int| 0 <= i < raw.len() ==> safe_rel_path(spec_decode_filename((#[trigger] raw[i]).0))
}

/// True when `es` is the decoded form of the raw 7z entries `raw`: same
/// order, names decoded, directory flags and contents kept.
pub open spec fn sevenz_entries_decoded(
    es: Seq<FsEntry>,
    raw: Seq<(Seq<u8>, bool, Seq<u8>)>,
) -> bool {
    es.len() == raw.len() && forall|i: int|
        0 <= i < raw.len() ==> (#[trigger] es[i]).path@ == spec_decode_filename(raw[i].0)
            && es[i].is_dir == raw[i].1 && es[i].data@ == raw[i].2 && es[i].unix_mode is None
}

/// Extracts a 7z archive from its listed entries (name bytes, directory
/// flag, decompressed content, in the order the decoder presented them);
/// `None` stands for a listing the decoder could not produce. Succeeds
/// exactly when a listing exists and every decoded name stays inside the
/// destination.
#[verifier::loop_isolation(false)]
pub fn extract_7z(listing: Option<Vec<(Vec<u8>, bool, Vec<u8>)>>) -> (r: Result<
    Vec<FsEntry>,
    ExtractError,
>)
    ensures
        r is Ok <==> listing is Some && sevenz_names_safe(listing->0.deep_view()),
        r is Ok ==> sevenz_entries_decoded(r->Ok_0@, listing->0.deep_view()),
        r is Err ==> (r->Err_0 is Format <==> listing is None),
        r is Err ==> r->Err_0 is Format || r->Err_0 is UnsafeName,
{
    let raw = match listing {
        Some(raw) => raw,
        None => {
            return Err(
                ExtractError::Format(String::from_str("the archive could not be decoded")),
            );
        },
    };
    let ghost model = raw.deep_view();
    let mut es: Vec<FsEntry> = Vec::new();
    let mut i: usize = 0;
    while i < raw.len()
        invariant
            raw.deep_view() == model,
            i <= raw@.len(),
            es@.len() == i,
            forall|k: int|
                0 <= k < i ==> (#[trigger] es@[k]).path@ == spec_decode_filename(model[k].0)
                    && es@[k].is_dir == model[k].1 && es@[k].data@ == model[k].2
                    && es@[k].unix_mode is None,
            forall|k: int|
                0 <= k < i ==> safe_rel_path(spec_decode_filename((#[trigger] model[k]).0)),
        decreases raw@.len() - i,
    {
        let (name, is_dir, content) = &raw[i];
        proof {
            assert(raw.deep_view()[i as int] == (raw@[i as int].0@, raw@[i as int].1, raw@[
                i as int].2@));
        }
        let path = decode_filename(name.as_slice());
        if !is_safe_rel_path(path.as_str()) {
            proof {
                assert(!sevenz_names_safe(model)) by {
                    assert(!safe_rel_path(spec_decode_filename(model[i as int].0)));
                }
            }
            return Err(ExtractError::UnsafeName(path));
        }
        let entry = FsEntry { path, is_dir: *is_dir, data: content.clone(), unix_mode: None };
        es.push(entry);
        i = i + 1;
    }
    Ok(es)
}

} // verus!
