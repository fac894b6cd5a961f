//! Recovers a readable path component from raw entry-name bytes of unknown
//! text encoding. The heuristic has three tiers, first match wins:
//! strict UTF-8 whose text carries no control character other than tab,
//! newline or carriage return; then Shift_JIS (CP932) without substitution
//! errors; then lossy UTF-8, which always succeeds. The tie-break order is
//! deliberate and must not change: it protects already-correct UTF-8 names
//! while recovering names written by legacy Japanese tools.

use vstd::prelude::*;
use vstd::utf8::{valid_utf8, decode_utf8, encode_utf8, encode_utf8_valid_utf8,
    encode_utf8_decode_utf8};
use crate::text::str_to_chars;

verus! {

/// A control character that disqualifies a UTF-8 reading of a name:
/// any Unicode control other than tab, newline and carriage return.
pub open spec fn is_forbidden_control(c: char) -> bool {
    ((c as u32) < 0x20 || (0x7f <= c as u32 && c as u32 <= 0x9f)) && c != '\n' && c != '\r'
        && c != '\t'
}

/// True when some character of `s` is a disqualifying control character.
pub open spec fn has_forbidden_control(s: Seq<char>) -> bool {
    exists|i: int| 0 <= i < s.len() && is_forbidden_control(s[i])
}

/// What Shift_JIS (CP932) decoding returns for the given bytes: the decoded
/// characters and whether malformed sequences were met (and replaced).
pub uninterp spec fn sjis_decoded(b: Seq<u8>) -> (Seq<char>, bool);

/// What lossy UTF-8 decoding returns for the given bytes: invalid sequences
/// appear as the replacement character, so it never fails.
pub uninterp spec fn lossy_chars(b: Seq<u8>) -> Seq<char>;

/// The decoded form of a raw name: strict UTF-8 when clean of control
/// characters, else error-free Shift_JIS, else lossy UTF-8.
pub open spec fn spec_decode_filename(b: Seq<u8>) -> Seq<char> {
    if valid_utf8(b) && !has_forbidden_control(decode_utf8(b)) {
        decode_utf8(b)
    } else if !sjis_decoded(b).1 {
        sjis_decoded(b).0
    } else {
        lossy_chars(b)
    }
}

/// Relies on `std::str::from_utf8`: succeeds exactly on valid UTF-8, and
/// the returned text is the decoded form of the bytes.
#[verifier::external_body]
fn try_utf8<'a>(bytes: &'a [u8]) -> (r: Option<&'a str>)
    ensures
        r is Some <==> valid_utf8(bytes@),
        r is Some ==> r->0@ == decode_utf8(bytes@),
{
    std::str::from_utf8(bytes).ok()
}

/// Relies on `encoding_rs::SHIFT_JIS.decode`: the decoded text and the
/// malformed-sequence flag are functions of the input bytes alone.
#[verifier::external_body]
fn sjis_decode(bytes: &[u8]) -> (r: (String, bool))
    ensures
        (r.0@, r.1) == sjis_decoded(bytes@),
{
    let (cow, _, had_errors) = encoding_rs::SHIFT_JIS.decode(bytes);
    (cow.into_owned(), had_errors)
}

/// Relies on `String::from_utf8_lossy`: the result is a function of the
/// input bytes alone, and the call never fails.
#[verifier::external_body]
fn lossy_decode(bytes: &[u8]) -> (r: String)
    ensures
        r@ == lossy_chars(bytes@),
{
    String::from_utf8_lossy(bytes).into_owned()
}

/// True when some character of `v` is a disqualifying control character.
fn contains_forbidden_control(v: &Vec<char>) -> (r: bool)
    ensures
        r == has_forbidden_control(v@),
{
    let mut i: usize = 0;
    while i < v.len()
        invariant
            i <= v@.len(),
            forall|k: int| 0 <= k < i ==> !is_forbidden_control(v@[k]),
        decreases v@.len() - i,
    {
        let c = v[i];
        let u = c as u32;
        if (u < 0x20 || (0x7f <= u && u <= 0x9f)) && c != '\n' && c != '\r' && c != '\t' {
            proof {
                assert(is_forbidden_control(v@[i as int]));
            }
            return true;
        }
        i = i + 1;
    }
    false
}

/// Decodes a raw entry-name byte sequence into readable text. Never fails:
/// the worst case is a lossy but well-formed result.
pub fn decode_filename(raw_bytes: &[u8]) -> (r: String)
    ensures
        r@ == spec_decode_filename(raw_bytes@),
{
    match try_utf8(raw_bytes) {
        Some(s) => {
            let chars = str_to_chars(s);
            if !contains_forbidden_control(&chars) {
                return s.to_owned();
            }
        },
        None => {},
    }
    let (decoded, had_errors) = sjis_decode(raw_bytes);
    if !had_errors {
        decoded
    } else {
        lossy_decode(raw_bytes)
    }
}

/// Law: a name that is valid UTF-8 and clean of disqualifying control
/// characters decodes to exactly its own text, unchanged.
pub proof fn lemma_decode_keeps_clean_utf8(s: Seq<char>)
    requires
        !has_forbidden_control(s),
    ensures
        spec_decode_filename(encode_utf8(s)) == s,
{
    encode_utf8_valid_utf8(s);
    encode_utf8_decode_utf8(s);
}

/// Law: on bytes that are not acceptable as UTF-8 (invalid, or carrying a
/// disqualifying control character) but decode as Shift_JIS without
/// substitution errors, the decoder returns the Shift_JIS reading.
pub proof fn lemma_decode_takes_sjis(b: Seq<u8>)
    requires
        !(valid_utf8(b) && !has_forbidden_control(decode_utf8(b))),
        !sjis_decoded(b).1,
    ensures
        spec_decode_filename(b) == sjis_decoded(b).0,
{
}

/// Law: the decoder is idempotent on every output that is free of
/// disqualifying control characters — re-decoding such an output's UTF-8
/// bytes returns it unchanged. (An output carrying a disqualifying control
/// character re-decodes through the Shift_JIS tier, whose result this
/// library does not interpret, so nothing more can be proved of it.)
pub proof fn lemma_decode_idempotent_on_clean(b: Seq<u8>)
    requires
        !has_forbidden_control(spec_decode_filename(b)),
    ensures
        spec_decode_filename(encode_utf8(spec_decode_filename(b))) == spec_decode_filename(b),
{
    lemma_decode_keeps_clean_utf8(spec_decode_filename(b));
}

/// Law: the replacement character used by lossy decoding is a fixed point
/// of the decoder — decoding its own UTF-8 bytes returns it unchanged.
pub proof fn lemma_decode_replacement_fixed_point()
    ensures
        spec_decode_filename(encode_utf8(seq!['\u{fffd}'])) == seq!['\u{fffd}'],
{
    assert(!is_forbidden_control('\u{fffd}'));
    lemma_decode_keeps_clean_utf8(seq!['\u{fffd}']);
}

} // verus!
