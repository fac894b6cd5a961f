//! Maps an archive's file name to a canonical format tag. Compound
//! suffixes (`.tar.gz`, `.tgz`, `.tar.xz`, `.tar.bz2`) are checked first,
//! case-insensitively; only then does the single final extension decide.
//! The tag is derived from the name alone, never from file content.

use vstd::prelude::*;
use crate::FormatTag;
use crate::text::{lower, lower_char_exec, ends_with, ends_with_fold, str_to_chars,
    chars_to_string};

verus! {

/// Index of the last `.` in `s`, or `-1` when there is none.
pub open spec fn last_dot_index(s: Seq<char>) -> int
    decreases s.len(),
{
    if s.len() == 0 {
        -1
    } else if s[s.len() - 1] == '.' {
        s.len() - 1
    } else {
        last_dot_index(s.drop_last())
    }
}

/// The extension of a file name: what follows the last `.`, empty when
/// there is no `.` or when the only `.` is the leading character (a name
/// such as `.profile` has no extension).
pub open spec fn spec_extension(s: Seq<char>) -> Seq<char> {
    if last_dot_index(s) >= 1 {
        s.subrange(last_dot_index(s) + 1, s.len() as int)
    } else {
        Seq::empty()
    }
}

/// The stem of a file name: what precedes the last `.`, or the whole name
/// when the name has no extension.
pub open spec fn spec_file_stem(s: Seq<char>) -> Seq<char> {
    if last_dot_index(s) >= 1 {
        s.subrange(0, last_dot_index(s))
    } else {
        s
    }
}

/// The recognized extension of a file name, lower-cased: a compound
/// `tar.*` suffix when one matches, otherwise the single final extension.
pub open spec fn spec_full_extension(name: Seq<char>) -> Seq<char> {
    if ends_with(lower(name), ".tar.gz"@) || ends_with(lower(name), ".tgz"@) {
        "tar.gz"@
    } else if ends_with(lower(name), ".tar.xz"@) {
        "tar.xz"@
    } else if ends_with(lower(name), ".tar.bz2"@) {
        "tar.bz2"@
    } else {
        lower(spec_extension(name))
    }
}

/// The format tag for a recognized extension string (already lower-cased).
pub open spec fn tag_of_extension(ext: Seq<char>) -> FormatTag {
    if ext == "zip"@ {
        FormatTag::Zip
    } else if ext == "7z"@ {
        FormatTag::SevenZ
    } else if ext == "rar"@ {
        FormatTag::Rar
    } else if ext == "tar"@ {
        FormatTag::Tar
    } else if ext == "tar.gz"@ {
        FormatTag::TarGz
    } else if ext == "tar.xz"@ {
        FormatTag::TarXz
    } else if ext == "tar.bz2"@ {
        FormatTag::TarBz2
    } else if ext == "gz"@ {
        FormatTag::Gzip
    } else if ext == "xz"@ {
        FormatTag::Xz
    } else if ext == "bz2"@ {
        FormatTag::Bzip2
    } else if ext == "lha"@ {
        FormatTag::Lha
    } else if ext == "lzh"@ {
        FormatTag::Lzh
    } else {
        FormatTag::Unknown
    }
}

/// The format tag of a file name.
pub open spec fn spec_classify(name: Seq<char>) -> FormatTag {
    tag_of_extension(spec_full_extension(name))
}

/// Law: compound suffixes take priority over the single final extension —
/// any name ending in `.tar.gz` or `.tgz` (ignoring ASCII case) classifies
/// as TarGz, never as Gzip; likewise `.tar.xz` and `.tar.bz2` beat their
/// outer compression suffixes.
pub proof fn lemma_compound_suffix_priority(name: Seq<char>)
    ensures
        ends_with(lower(name), ".tar.gz"@) || ends_with(lower(name), ".tgz"@) ==> spec_classify(
            name,
        ) == FormatTag::TarGz,
        !ends_with(lower(name), ".tar.gz"@) && !ends_with(lower(name), ".tgz"@) && ends_with(
            lower(name),
            ".tar.xz"@,
        ) ==> spec_classify(name) == FormatTag::TarXz,
        !ends_with(lower(name), ".tar.gz"@) && !ends_with(lower(name), ".tgz"@) && !ends_with(
            lower(name),
            ".tar.xz"@,
        ) && ends_with(lower(name), ".tar.bz2"@) ==> spec_classify(name) == FormatTag::TarBz2,
{
    reveal_strlit("zip");
    reveal_strlit("7z");
    reveal_strlit("rar");
    reveal_strlit("tar");
    reveal_strlit("tar.gz");
    reveal_strlit("tar.xz");
    reveal_strlit("tar.bz2");
    assert("zip"@.len() == 3 && "7z"@.len() == 2 && "rar"@.len() == 3 && "tar"@.len() == 3
        && "tar.gz"@.len() == 6 && "tar.xz"@.len() == 6 && "tar.bz2"@.len() == 7);
    assert("tar.xz"@ != "tar.gz"@) by {
        assert("tar.xz"@[4] == 'x' && "tar.gz"@[4] == 'g');
    }
    assert(tag_of_extension("tar.gz"@) == FormatTag::TarGz);
    assert(tag_of_extension("tar.xz"@) == FormatTag::TarXz);
    assert(tag_of_extension("tar.bz2"@) == FormatTag::TarBz2);
}

/// The characters after the last `.` of `v`, or nothing when the name has
/// no extension.
fn extension_chars(v: &Vec<char>) -> (r: Vec<char>)
    ensures
        r@ == spec_extension(v@),
{
    let n = v.len();
    let mut i: usize = n;
    while i > 0
        invariant
            n == v@.len(),
            i <= n,
            forall|k: int| i <= k < n ==> v@[k] != '.',
        decreases i,
    {
        if v[i - 1] == '.' {
            proof {
                lemma_last_dot_found(v@, i - 1);
            }
            if i - 1 >= 1 {
                let mut r: Vec<char> = Vec::new();
                let mut j: usize = i;
                while j < n
                    invariant
                        n == v@.len(),
                        i <= j <= n,
                        r@ == v@.subrange(i as int, j as int),
                    decreases n - j,
                {
                    r.push(v[j]);
                    j = j + 1;
                    proof {
                        assert(r@ =~= v@.subrange(i as int, j as int));
                    }
                }
                return r;
            } else {
                return Vec::new();
            }
        }
        i = i - 1;
    }
    proof {
        lemma_no_dot(v@);
    }
    Vec::new()
}

/// When `s[i]` is the last `.` of `s`, `last_dot_index(s)` is `i`.
pub proof fn lemma_last_dot_found(s: Seq<char>, i: int)
    requires
        0 <= i < s.len(),
        s[i] == '.',
        forall|k: int| i < k < s.len() ==> s[k] != '.',
    ensures
        last_dot_index(s) == i,
    decreases s.len(),
{
    if i == s.len() - 1 {
    } else {
        lemma_last_dot_found(s.drop_last(), i);
    }
}

/// A name with no `.` at all has no last dot.
pub proof fn lemma_no_dot(s: Seq<char>)
    requires
        forall|k: int| 0 <= k < s.len() ==> s[k] != '.',
    ensures
        last_dot_index(s) == -1,
    decreases s.len(),
{
    if s.len() > 0 {
        lemma_no_dot(s.drop_last());
    }
}

/// The recognized (possibly compound) extension of `file_name`, lower-cased;
/// empty when the name has none. Case folding is ASCII-only: it is what the
/// recognized extension set needs, and the returned text is only ever
/// matched against that set.
pub fn get_full_extension(file_name: &str) -> (r: String)
    ensures
        r@ == spec_full_extension(file_name@),
{
    let chars = str_to_chars(file_name);
    if ends_with_fold(&chars, ".tar.gz") || ends_with_fold(&chars, ".tgz") {
        String::from_str("tar.gz")
    } else if ends_with_fold(&chars, ".tar.xz") {
        String::from_str("tar.xz")
    } else if ends_with_fold(&chars, ".tar.bz2") {
        String::from_str("tar.bz2")
    } else {
        let ext = extension_chars(&chars);
        let mut low: Vec<char> = Vec::new();
        let mut i: usize = 0;
        while i < ext.len()
            invariant
                i <= ext@.len(),
                low@ == lower(ext@.subrange(0, i as int)),
            decreases ext@.len() - i,
        {
            low.push(lower_char_exec(ext[i]));
            i = i + 1;
            proof {
                assert(low@ =~= lower(ext@.subrange(0, i as int)));
            }
        }
        proof {
            assert(ext@.subrange(0, ext@.len() as int) =~= ext@);
        }
        chars_to_string(&low)
    }
}

/// The format tag of `file_name`: compound suffixes take priority over the
/// single final extension, and matching ignores ASCII case.
pub fn classify(file_name: &str) -> (r: FormatTag)
    ensures
        r == spec_classify(file_name@),
{
    let ext = get_full_extension(file_name);
    let e = ext.as_str();
    if str_eq(e, "zip") {
        FormatTag::Zip
    } else if str_eq(e, "7z") {
        FormatTag::SevenZ
    } else if str_eq(e, "rar") {
        FormatTag::Rar
    } else if str_eq(e, "tar") {
        FormatTag::Tar
    } else if str_eq(e, "tar.gz") {
        FormatTag::TarGz
    } else if str_eq(e, "tar.xz") {
        FormatTag::TarXz
    } else if str_eq(e, "tar.bz2") {
        FormatTag::TarBz2
    } else if str_eq(e, "gz") {
        FormatTag::Gzip
    } else if str_eq(e, "xz") {
        FormatTag::Xz
    } else if str_eq(e, "bz2") {
        FormatTag::Bzip2
    } else if str_eq(e, "lha") {
        FormatTag::Lha
    } else if str_eq(e, "lzh") {
        FormatTag::Lzh
    } else {
        FormatTag::Unknown
    }
}

/// Character-by-character string equality.
fn str_eq(a: &str, b: &str) -> (r: bool)
    ensures
        r == (a@ == b@),
{
    let n = a.unicode_len();
    let m = b.unicode_len();
    if n != m {
        proof {
            assert(a@.len() != b@.len());
        }
        return false;
    }
    let mut i: usize = 0;
    while i < n
        invariant
            n == a@.len(),
            n == b@.len(),
            i <= n,
            forall|k: int| 0 <= k < i ==> a@[k] == b@[k],
        decreases n - i,
    {
        if a.get_char(i) != b.get_char(i) {
            return false;
        }
        i = i + 1;
    }
    proof {
        assert(a@ =~= b@);
    }
    true
}

} // verus!
