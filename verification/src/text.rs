//! Character-level helpers shared by the classifier, the filename decoder
//! and the destination resolver: ASCII case folding, suffix tests, and
//! conversions between `String` and `Vec<char>`.

use vstd::prelude::*;

verus! {

/// ASCII lower-case form of one character; everything outside `A`..`Z`
/// is left unchanged.
pub open spec fn lower_char(c: char) -> char {
    if 65 <= c as u32 && c as u32 <= 90 {
        ((c as u32 + 32) as u8) as char
    } else {
        c
    }
}

/// ASCII lower-case form of a character sequence.
pub open spec fn lower(s: Seq<char>) -> Seq<char> {
    s.map_values(|c: char| lower_char(c))
}

/// True when `s` ends with `suffix`.
pub open spec fn ends_with(s: Seq<char>, suffix: Seq<char>) -> bool {
    s.len() >= suffix.len() && s.subrange(s.len() - suffix.len(), s.len() as int) == suffix
}

/// Executable ASCII case folding of one character.
pub fn lower_char_exec(c: char) -> (r: char)
    ensures
        r == lower_char(c),
{
    let u = c as u32;
    if 65 <= u && u <= 90 {
        ((u + 32) as u8) as char
    } else {
        c
    }
}

/// The characters of `s`, in order, as a vector.
pub fn str_to_chars(s: &str) -> (r: Vec<char>)
    ensures
        r@ == s@,
{
    let n = s.unicode_len();
    let mut r: Vec<char> = Vec::new();
    let mut i: usize = 0;
    while i < n
        invariant
            n == s@.len(),
            i <= n,
            r@ == s@.subrange(0, i as int),
        decreases n - i,
    {
        r.push(s.get_char(i));
        i = i + 1;
        proof {
            assert(r@ =~= s@.subrange(0, i as int));
        }
    }
    proof {
        assert(r@ =~= s@);
    }
    r
}

/// The first `m` characters of `v`, as a new vector.
pub fn copy_prefix(v: &Vec<char>, m: usize) -> (r: Vec<char>)
    requires
        m <= v@.len(),
    ensures
        r@ == v@.subrange(0, m as int),
{
    let mut r: Vec<char> = Vec::new();
    let mut j: usize = 0;
    while j < m
        invariant
            m <= v@.len(),
            j <= m,
            r@ == v@.subrange(0, j as int),
        decreases m - j,
    {
        r.push(v[j]);
        j = j + 1;
        proof {
            assert(r@ =~= v@.subrange(0, j as int));
        }
    }
    r
}

/// Relies on `String::from_iter` over `Chars`: collecting characters
/// yields the string made of exactly those characters, in order.
#[verifier::external_body]
pub fn chars_to_string(v: &Vec<char>) -> (r: String)
    ensures
        r@ == v@,
{
    v.iter().collect()
}

/// True when `v`, case-folded, ends with `suffix` (`suffix` is expected
/// to be given already in lower case).
pub fn ends_with_fold(v: &Vec<char>, suffix: &str) -> (r: bool)
    ensures
        r == ends_with(lower(v@), suffix@),
{
    let m = suffix.unicode_len();
    let n = v.len();
    if n < m {
        return false;
    }
    let mut j: usize = 0;
    while j < m
        invariant
            m == suffix@.len(),
            n == v@.len(),
            m <= n,
            j <= m,
            forall|k: int| 0 <= k < j ==> lower(v@)[n - m + k] == suffix@[k],
        decreases m - j,
    {
        let c = lower_char_exec(v[n - m + j]);
        if c != suffix.get_char(j) {
            proof {
                assert(lower(v@)[n - m + j] != suffix@[j as int]);
                assert(lower(v@).subrange(n - m, n as int)[j as int] == lower(v@)[n - m + j]);
            }
            return false;
        }
        j = j + 1;
    }
    proof {
        assert(lower(v@).subrange(n - m, n as int) =~= suffix@);
    }
    true
}

} // verus!
