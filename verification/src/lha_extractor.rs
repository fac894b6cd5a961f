//! Extractor for LHA/LZH archives. The `delharc` crate yields entries
//! lazily, one header at a time, with no explicit entry count: the
//! verified loop reads entries at increasing byte positions, detects the
//! end of the archive either by the cursor reaching the end of the input
//! or by the next header failing to parse, and fails the job only when no
//! entry at all could be extracted or an entry's content would not decode.

use vstd::prelude::*;
use crate::entries::{FsEntry, ExtractError, safe_rel_path, is_safe_rel_path};
use crate::filename::{decode_filename, spec_decode_filename};

verus! {

/// What reading one LHA entry at byte position `pos` of `b` returns:
/// the entry's raw name bytes, its directory flag, its decompressed
/// content (nothing when the content does not decode), and the position
/// after the entry; or nothing when no header parses at `pos`.
pub uninterp spec fn lha_step(b: Seq<u8>, pos: nat) -> Option<(Seq<u8>, bool, Option<Seq<u8>>, nat)>;

/// Relies on `delharc::LhaDecodeReader::new` over a cursor: reading the
/// header and content at a position is a function of the bytes and the
/// position alone; a parsed header consumes at least one byte, and the
/// cursor never passes the end of the input.
#[verifier::external_body]
fn lha_next(data: &[u8], pos: u64) -> (r: Option<(Vec<u8>, bool, Option<Vec<u8>>, u64)>)
    requires
        pos <= data@.len(),
    ensures
        r is Some <==> lha_step(data@, pos as nat) is Some,
        r is Some ==> {
            let t = lha_step(data@, pos as nat)->0;
            let u = r->0;
            u.0@ == t.0 && u.1 == t.1 && u.2.deep_view() == t.2 && u.3 == t.3 && pos < t.3
                <= data@.len()
        },
{
    let mut cursor = std::io::Cursor::new(data);
    cursor.set_position(pos);
    let mut decoder = delharc::LhaDecodeReader::new(&mut cursor).ok()?;
    let name = decoder.header().filename.to_vec();
    let is_dir = decoder.header().is_directory();
    let mut buf = Vec::new();
    let content = std::io::Read::read_to_end(&mut decoder, &mut buf).ok().map(|_| buf);
    drop(decoder);
    Some((name, is_dir, content, cursor.position()))
}

/// The entries of an LHA archive, read from position `pos` on: each step's
/// result, until the end of the input is reached or a header fails to
/// parse. The guard on the step's reported position mirrors what the
/// trusted reader guarantees and bounds the recursion.
pub open spec fn lha_items(b: Seq<u8>, pos: nat) -> Seq<(Seq<u8>, bool, Option<Seq<u8>>, nat)>
    decreases b.len() - pos,
    when pos <= b.len()
{
    if pos >= b.len() {
        Seq::empty()
    } else {
        match lha_step(b, pos) {
            Option::None => Seq::empty(),
            Option::Some(t) => {
                if pos < t.3 <= b.len() {
                    seq![t] + lha_items(b, t.3)
                } else {
                    seq![t]
                }
            },
        }
    }
}

/// True when every listed entry's decoded name stays inside the
/// destination.
pub open spec fn lha_names_safe(items: Seq<(Seq<u8>, bool, Option<Seq<u8>>, nat)>) -> bool {
    forall|i: int|
        0 <= i < items.len() ==> safe_rel_path(spec_decode_filename((#[trigger] items[i]).0))
}

/// True when every listed entry's content decoded.
pub open spec fn lha_all_read(items: Seq<(Seq<u8>, bool, Option<Seq<u8>>, nat)>) -> bool {
    forall|i: int| 0 <= i < items.len() ==> (#[trigger] items[i]).2 is Some
}

/// True when `es` is the decoded form of the LHA entries `items`.
pub open spec fn lha_entries_decoded(
    es: Seq<FsEntry>,
    items: Seq<(Seq<u8>, bool, Option<Seq<u8>>, nat)>,
) -> bool {
    es.len() == items.len() && forall|i: int|
        0 <= i < items.len() ==> (#[trigger] es[i]).path@ == spec_decode_filename(items[i].0)
            && es[i].is_dir == items[i].1 && es[i].data@ == items[i].2->0 && es[
            i].unix_mode is None
}

/// Extracts an LHA/LZH archive from its bytes: entries are read in stream
/// order until the input ends or no further header parses. An archive
/// from which no entry at all can be read is a format error, even without
/// an explicit failure; an entry whose content will not decode aborts the
/// job as a read error, and a decoded name that would escape the
/// destination aborts it too.
pub fn extract_lha(data: &[u8]) -> (r: Result<Vec<FsEntry>, ExtractError>)
    ensures
        r is Ok <==> lha_items(data@, 0).len() > 0 && lha_all_read(lha_items(data@, 0))
            && lha_names_safe(lha_items(data@, 0)),
        r is Ok ==> lha_entries_decoded(r->Ok_0@, lha_items(data@, 0)),
        r is Err ==> (r->Err_0 is Format <==> lha_items(data@, 0).len() == 0),
        r is Err ==> r->Err_0 is Format || r->Err_0 is Read || r->Err_0 is UnsafeName,
{
    let ghost items = lha_items(data@, 0);
    let mut es: Vec<FsEntry> = Vec::new();
    let mut pos: u64 = 0;
    let mut count: usize = 0;
    proof {
        assert(items.subrange(0, items.len() as int) =~= items);
        assert(items.subrange(0, 0) =~= Seq::<(Seq<u8>, bool, Option<Seq<u8>>, nat)>::empty());
    }
    loop
        invariant
            items == lha_items(data@, 0),
            pos <= data@.len(),
            count == es@.len(),
            count <= items.len(),
            lha_items(data@, pos as nat) == items.subrange(count as int, items.len() as int),
            lha_entries_decoded(es@, items.subrange(0, count as int)),
            forall|k: int| 0 <= k < count ==> (#[trigger] items[k]).2 is Some,
            forall|k: int|
                0 <= k < count ==> safe_rel_path(spec_decode_filename((#[trigger] items[k]).0)),
        ensures
            count == items.len(),
            count > 0,
            count == es@.len(),
            lha_entries_decoded(es@, items.subrange(0, count as int)),
            forall|k: int| 0 <= k < count ==> (#[trigger] items[k]).2 is Some,
            forall|k: int|
                0 <= k < count ==> safe_rel_path(spec_decode_filename((#[trigger] items[k]).0)),
        decreases data@.len() - pos,
    {
        if pos >= data.len() as u64 {
            proof {
                assert(items.subrange(count as int, items.len() as int) =~= Seq::<(
                    Seq<u8>,
                    bool,
                    Option<Seq<u8>>,
                    nat,
                )>::empty());
                assert(count == items.len());
            }
            if count == 0 {
                return Err(
                    ExtractError::Format(String::from_str("no valid archive entry was found")),
                );
            }
            break;
        }
        match lha_next(data, pos) {
            Some((name, is_dir, content, newpos)) => {
                proof {
                    assert(items.subrange(count as int, items.len() as int).len() > 0);
                    assert(items[count as int] == items.subrange(
                        count as int,
                        items.len() as int,
                    )[0]);
                    assert(items[count as int] == lha_step(data@, pos as nat)->0);
                }
                let content = match content {
                    Some(c) => c,
                    None => {
                        proof {
                            assert(!lha_all_read(items)) by {
                                assert(items[count as int].2 is None);
                            }
                        }
                        return Err(
                            ExtractError::Read(
                                String::from_str("an entry's content would not decode"),
                            ),
                        );
                    },
                };
                proof {
                    assert(items[count as int].2->0 == content@);
                }
                let path = decode_filename(name.as_slice());
                if !is_safe_rel_path(path.as_str()) {
                    proof {
                        assert(!lha_names_safe(items)) by {
                            assert(!safe_rel_path(
                                spec_decode_filename(items[count as int].0),
                            ));
                        }
                    }
                    return Err(ExtractError::UnsafeName(path));
                }
                let entry = FsEntry { path, is_dir, data: content, unix_mode: None };
                es.push(entry);
                count = es.len();
                pos = newpos;
                proof {
                    assert(items.subrange(count - 1, items.len() as int).drop_first()
                        =~= items.subrange(count as int, items.len() as int));
                    assert(es@[count - 1] == entry);
                    assert(forall|k: int|
                        0 <= k < count - 1 ==> es@[k] == es@.subrange(0, count - 1)[k]);
                    assert(lha_entries_decoded(es@, items.subrange(0, count as int)));
                }
            },
            None => {
                proof {
                    assert(items.subrange(count as int, items.len() as int) =~= Seq::<(
                        Seq<u8>,
                        bool,
                        Option<Seq<u8>>,
                        nat,
                    )>::empty());
                    assert(count == items.len());
                }
                if count == 0 {
                    return Err(
                        ExtractError::Format(String::from_str("no valid archive entry was found")),
                    );
                }
                break;
            },
        }
    }
    proof {
        assert(items.subrange(0, count as int) =~= items);
    }
    Ok(es)
}

/// Extracts an LZH archive: the format is the same as LHA.
pub fn extract_lzh(data: &[u8]) -> (r: Result<Vec<FsEntry>, ExtractError>)
    ensures
        r is Ok <==> lha_items(data@, 0).len() > 0 && lha_all_read(lha_items(data@, 0))
            && lha_names_safe(lha_items(data@, 0)),
        r is Ok ==> lha_entries_decoded(r->Ok_0@, lha_items(data@, 0)),
        r is Err ==> (r->Err_0 is Format <==> lha_items(data@, 0).len() == 0),
        r is Err ==> r->Err_0 is Format || r->Err_0 is Read || r->Err_0 is UnsafeName,
{
    extract_lha(data)
}

} // verus!
