//! Extractor for ZIP archives. The container is decoded by the `zip`
//! crate behind trusted accessors; the verified logic walks the entry
//! table by index, decodes each raw name, recognizes directory entries by
//! their trailing slash, keeps the recorded Unix permission bits, and
//! refuses entries whose decoded name would escape the destination.

use vstd::prelude::*;
use crate::entries::{FsEntry, ExtractError, safe_rel_path, is_safe_rel_path};
use crate::filename::{decode_filename, spec_decode_filename};

verus! {

#[verifier::external_type_specification]
#[verifier::external_body]
#[verifier::reject_recursive_types(T)]
pub struct ExCursor<T>(std::io::Cursor<T>);

#[verifier::external_type_specification]
#[verifier::external_body]
#[verifier::reject_recursive_types(R)]
pub struct ExZipArchive<R>(zip::ZipArchive<R>);

#[verifier::external_type_specification]
#[verifier::external_body]
pub struct ExZipError(zip::result::ZipError);

/// What parsing bytes as a ZIP central directory returns: for each entry
/// in table order, its raw name bytes, its decompressed content (nothing
/// when the entry's local data is broken and cannot be read), and its
/// recorded Unix permission bits; or nothing when the table itself does
/// not parse. Reading is over in-memory bytes, so all of it is a function
/// of the bytes alone.
pub uninterp spec fn zip_parse(b: Seq<u8>) -> Option<
    Seq<(Seq<u8>, Option<Seq<u8>>, Option<u32>)>,
>;

/// The entry table of an opened ZIP archive, as raw name bytes, content
/// where readable, and recorded Unix permission bits, in table order.
pub uninterp spec fn zip_entries(a: zip::ZipArchive<std::io::Cursor<Vec<u8>>>) -> Seq<
    (Seq<u8>, Option<Seq<u8>>, Option<u32>),
>;

/// Relies on `zip::ZipArchive::new`: reads the central directory; success
/// and the resulting entry table are functions of the bytes alone.
#[verifier::external_body]
fn zip_open(data: Vec<u8>) -> (r: Result<
    zip::ZipArchive<std::io::Cursor<Vec<u8>>>,
    zip::result::ZipError,
>)
    ensures
        r is Ok <==> zip_parse(data@) is Some,
        r is Ok ==> zip_entries(r->Ok_0) == zip_parse(data@)->0,
{
    zip::ZipArchive::new(std::io::Cursor::new(data))
}

/// Relies on `zip::ZipArchive::len`: the number of entries in the table.
#[verifier::external_body]
fn zip_len(a: &zip::ZipArchive<std::io::Cursor<Vec<u8>>>) -> (r: usize)
    ensures
        r == zip_entries(*a).len(),
{
    a.len()
}

/// Relies on `zip::ZipArchive::by_index` and the `ZipFile` accessors
/// `name_raw`, `unix_mode` and `Read`: hands out entry `i`'s raw name
/// bytes, decompressed content and permission bits. Reading an in-memory
/// cursor is deterministic, so it succeeds exactly when the table records
/// the entry as readable; the table itself is immutable archive metadata
/// and is left unchanged.
#[verifier::external_body]
fn zip_entry(a: &mut zip::ZipArchive<std::io::Cursor<Vec<u8>>>, i: usize) -> (r: Result<
    (Vec<u8>, Vec<u8>, Option<u32>),
    zip::result::ZipError,
>)
    requires
        i < zip_entries(*old(a)).len(),
    ensures
        zip_entries(*final(a)) == zip_entries(*old(a)),
        r is Ok <==> zip_entries(*old(a))[i as int].1 is Some,
        r is Ok ==> {
            let t = zip_entries(*old(a))[i as int];
            r->Ok_0.0@ == t.0 && r->Ok_0.1@ == t.1->0 && r->Ok_0.2 == t.2
        },
{
    let mut f = a.by_index(i)?;
    let name = f.name_raw().to_vec();
    let mode = f.unix_mode();
    let mut content = Vec::new();
    std::io::Read::read_to_end(&mut f, &mut content)?;
    Ok((name, content, mode))
}

/// Relies on `zip::result::ZipError`'s `Display` impl: renders the
/// diagnostic.
#[verifier::external_body]
fn zip_error_message(e: &zip::result::ZipError) -> String {
    format!("{}", e)
}

/// True when every entry of the table is readable.
pub open spec fn zip_all_readable(raw: Seq<(Seq<u8>, Option<Seq<u8>>, Option<u32>)>) -> bool {
    forall|i: int| 0 <= i < raw.len() ==> (#[trigger] raw[i]).1 is Some
}

/// True when every entry's decoded name stays inside the destination.
pub open spec fn zip_names_safe(raw: Seq<(Seq<u8>, Option<Seq<u8>>, Option<u32>)>) -> bool {
    forall|i: int| 0 <= i < raw.len() ==> safe_rel_path(spec_decode_filename((#[trigger] raw[i]).0))
}

/// True when `e` is the decoded form of the raw ZIP entry `raw`: name
/// decoded, directory recognized by the raw name's trailing slash (byte
/// 47), content and permission bits kept.
pub open spec fn zip_entry_decoded(e: FsEntry, raw: (Seq<u8>, Option<Seq<u8>>, Option<u32>)) -> bool {
    e.path@ == spec_decode_filename(raw.0) && e.is_dir == (raw.0.len() > 0 && raw.0.last() == 47)
        && e.data@ == raw.1->0 && e.unix_mode == raw.2
}

/// True when `es` is the decoded form of the raw ZIP entries `raw`.
pub open spec fn zip_entries_decoded(
    es: Seq<FsEntry>,
    raw: Seq<(Seq<u8>, Option<Seq<u8>>, Option<u32>)>,
) -> bool {
    es.len() == raw.len() && forall|i: int|
        0 <= i < raw.len() ==> zip_entry_decoded(#[trigger] es[i], raw[i])
}

/// Extracts a ZIP archive from its bytes: succeeds exactly when the table
/// parses, every entry's content is readable, and every decoded name stays
/// inside the destination; the result is then the whole table, in order,
/// names decoded, directories recognized by their trailing slash, and Unix
/// permission bits kept where recorded. A failure to parse the table is a
/// format error; an unreadable or escaping entry aborts the whole job.
#[verifier::loop_isolation(false)]
pub fn extract_zip(data: Vec<u8>) -> (r: Result<Vec<FsEntry>, ExtractError>)
    ensures
        r is Ok <==> zip_parse(data@) is Some && zip_all_readable(zip_parse(data@)->0)
            && zip_names_safe(zip_parse(data@)->0),
        r is Ok ==> zip_entries_decoded(r->Ok_0@, zip_parse(data@)->0),
        r is Ok ==> forall|i: int|
            0 <= i < r->Ok_0@.len() ==> safe_rel_path((#[trigger] r->Ok_0@[i]).path@),
        r is Err ==> (r->Err_0 is Format <==> zip_parse(data@) is None),
        r is Err ==> r->Err_0 is Format || r->Err_0 is Read || r->Err_0 is UnsafeName,
{
    let ghost model_opt = zip_parse(data@);
    let mut archive = match zip_open(data) {
        Ok(a) => a,
        Err(e) => {
            return Err(ExtractError::Format(zip_error_message(&e)));
        },
    };
    let ghost model = model_opt->0;
    let n = zip_len(&archive);
    let mut es: Vec<FsEntry> = Vec::new();
    let mut i: usize = 0;
    while i < n
        invariant
            zip_entries(archive) == model,
            n == model.len(),
            i <= n,
            es@.len() == i,
            forall|k: int| 0 <= k < i ==> zip_entry_decoded(#[trigger] es@[k], model[k]),
            forall|k: int| 0 <= k < i ==> (#[trigger] model[k]).1 is Some,
            forall|k: int|
                0 <= k < i ==> safe_rel_path(spec_decode_filename((#[trigger] model[k]).0)),
        decreases n - i,
    {
        let (name, content, mode) = match zip_entry(&mut archive, i) {
            Ok(t) => t,
            Err(e) => {
                proof {
                    assert(!zip_all_readable(model)) by {
                        assert(model[i as int].1 is None);
                    }
                }
                return Err(ExtractError::Read(zip_error_message(&e)));
            },
        };
        let is_dir = name.len() > 0 && name[name.len() - 1] == 47u8;
        let path = decode_filename(name.as_slice());
        if !is_safe_rel_path(path.as_str()) {
            proof {
                assert(!zip_names_safe(model)) by {
                    assert(!safe_rel_path(spec_decode_filename(model[i as int].0)));
                }
            }
            return Err(ExtractError::UnsafeName(path));
        }
        let entry = FsEntry { path, is_dir, data: content, unix_mode: mode };
        es.push(entry);
        i = i + 1;
    }
    Ok(es)
}

} // verus!
