//! Derives the extraction destination name from an archive's file name and
//! disambiguates it against the names already present in the parent
//! directory: the archive's stem (with a trailing `.tar` also stripped, so
//! `a.tar.gz` extracts to `a`), then ` (1)`, ` (2)`, ... until a free name
//! is found. The caller supplies the set of names in use; the resolver
//! guarantees the returned name is not among them.

use vstd::prelude::*;
use vstd::seq_lib::*;
use vstd::set_lib::lemma_len_subset;
use crate::classify::spec_file_stem;
use crate::text::{lower, ends_with, ends_with_fold, str_to_chars, chars_to_string, copy_prefix};

verus! {

/// The decimal digit character for `d` (`0` to `9`).
pub open spec fn digit_char(d: int) -> char {
    ((48 + d) as u8) as char
}

/// The decimal digits of `n`, most significant first, empty for zero.
pub open spec fn decimal_pos(n: nat) -> Seq<char>
    decreases n,
{
    if n == 0 {
        Seq::empty()
    } else {
        decimal_pos(n / 10) + seq![digit_char((n % 10) as int)]
    }
}

/// The decimal rendering of `n`, most significant digit first.
pub open spec fn decimal(n: nat) -> Seq<char> {
    if n == 0 {
        seq!['0']
    } else {
        decimal_pos(n)
    }
}

proof fn lemma_digit_char_injective(a: int, b: int)
    requires
        0 <= a <= 9,
        0 <= b <= 9,
        digit_char(a) == digit_char(b),
    ensures
        a == b,
{
    assert(digit_char(a) as u32 == 48 + a);
    assert(digit_char(b) as u32 == 48 + b);
}

proof fn lemma_decimal_pos_len(n: nat)
    ensures
        n > 0 ==> decimal_pos(n).len() >= 1,
        n == 0 ==> decimal_pos(n).len() == 0,
    decreases n,
{
    if n > 0 {
        lemma_decimal_pos_len(n / 10);
    }
}

proof fn lemma_decimal_pos_injective(a: nat, b: nat)
    requires
        decimal_pos(a) == decimal_pos(b),
    ensures
        a == b,
    decreases a,
{
    lemma_decimal_pos_len(a);
    lemma_decimal_pos_len(b);
    if a == 0 || b == 0 {
        assert(a == 0 && b == 0);
    } else {
        let da = decimal_pos(a);
        let db = decimal_pos(b);
        assert(da.last() == digit_char((a % 10) as int));
        assert(db.last() == digit_char((b % 10) as int));
        lemma_digit_char_injective((a % 10) as int, (b % 10) as int);
        assert(da.drop_last() =~= decimal_pos(a / 10));
        assert(db.drop_last() =~= decimal_pos(b / 10));
        lemma_decimal_pos_injective(a / 10, b / 10);
    }
}

/// Distinct numbers have distinct decimal renderings.
pub proof fn lemma_decimal_injective(a: nat, b: nat)
    requires
        decimal(a) == decimal(b),
    ensures
        a == b,
{
    lemma_decimal_pos_len(a);
    lemma_decimal_pos_len(b);
    if a == 0 && b == 0 {
    } else if a == 0 {
        assert(decimal(b).last() == digit_char((b % 10) as int));
        lemma_digit_char_injective(0, (b % 10) as int);
        assert(decimal(b).drop_last() =~= decimal_pos(b / 10));
        assert(decimal(a).drop_last() =~= Seq::<char>::empty());
        lemma_decimal_pos_len(b / 10);
        assert(b / 10 == 0);
        assert(b == 0);
    } else if b == 0 {
        assert(decimal(a).last() == digit_char((a % 10) as int));
        lemma_digit_char_injective((a % 10) as int, 0);
        assert(decimal(a).drop_last() =~= decimal_pos(a / 10));
        assert(decimal(b).drop_last() =~= Seq::<char>::empty());
        lemma_decimal_pos_len(a / 10);
        assert(a / 10 == 0);
        assert(a == 0);
    } else {
        lemma_decimal_pos_injective(a, b);
    }
}

/// The decimal rendering of `n`, as characters.
pub fn decimal_chars(n: u64) -> (r: Vec<char>)
    ensures
        r@ == decimal(n as nat),
{
    if n == 0 {
        let mut r: Vec<char> = Vec::new();
        r.push('0');
        proof {
            assert(r@ =~= decimal(0));
        }
        return r;
    }
    let mut digits: Vec<char> = Vec::new();
    let mut m = n;
    proof {
        assert(digits@.reverse() =~= Seq::<char>::empty());
        assert(decimal_pos(n as nat) =~= decimal_pos(n as nat) + digits@.reverse());
    }
    while m > 0
        invariant
            decimal_pos(n as nat) == decimal_pos(m as nat) + digits@.reverse(),
        decreases m,
    {
        let d = (m % 10) as u8;
        digits.push((48 + d) as char);
        m = m / 10;
        proof {
            assert(digits@.reverse() =~= seq![digits@.last()] + digits@.drop_last().reverse());
            assert(decimal_pos(n as nat) =~= decimal_pos(m as nat) + digits@.reverse());
        }
    }
    let mut r: Vec<char> = Vec::new();
    let mut i = digits.len();
    while i > 0
        invariant
            i <= digits@.len(),
            r@ =~= digits@.subrange(i as int, digits@.len() as int).reverse(),
        decreases i,
    {
        i = i - 1;
        r.push(digits[i]);
        proof {
            assert(r@ =~= digits@.subrange(i as int, digits@.len() as int).reverse());
        }
    }
    proof {
        assert(digits@.subrange(0, digits@.len() as int) =~= digits@);
        assert(decimal_pos(0) + digits@.reverse() =~= digits@.reverse());
    }
    r
}

/// The `k`-numbered variant of a base name: `base (k)`.
pub open spec fn numbered_name(base: Seq<char>, k: nat) -> Seq<char> {
    base + " ("@ + decimal(k) + ")"@
}

/// True when `name` is one of the names in `existing`.
pub open spec fn taken(existing: Seq<String>, name: Seq<char>) -> bool {
    exists|i: int| 0 <= i < existing.len() && existing[i]@ == name
}

proof fn lemma_numbered_name_injective(base: Seq<char>, i: nat, j: nat)
    requires
        numbered_name(base, i) == numbered_name(base, j),
    ensures
        i == j,
{
    reveal_strlit(" (");
    reveal_strlit(")");
    let ni = numbered_name(base, i);
    let nj = numbered_name(base, j);
    assert(ni.len() == base.len() + 2 + decimal(i).len() + 1);
    assert(nj.len() == base.len() + 2 + decimal(j).len() + 1);
    assert(decimal(i) =~= ni.subrange(base.len() as int + 2, ni.len() as int - 1));
    assert(decimal(j) =~= nj.subrange(base.len() as int + 2, nj.len() as int - 1));
    lemma_decimal_injective(i, j);
}

/// True when `name` occurs in `existing`.
fn is_taken(existing: &Vec<String>, name: &String) -> (r: bool)
    ensures
        r == taken(existing@, name@),
{
    let mut i: usize = 0;
    while i < existing.len()
        invariant
            i <= existing@.len(),
            forall|k: int| 0 <= k < i ==> existing@[k]@ != name@,
        decreases existing@.len() - i,
    {
        if existing[i].eq(name) {
            return true;
        }
        i = i + 1;
    }
    false
}

/// `base (k)` as a string.
fn numbered_string(base: &str, k: u64) -> (r: String)
    ensures
        r@ == numbered_name(base@, k as nat),
{
    let mut v = str_to_chars(base);
    v.push(' ');
    v.push('(');
    let digits = decimal_chars(k);
    let mut d: usize = 0;
    proof {
        assert(v@ =~= base@ + seq![' ', '('] + digits@.subrange(0, 0));
    }
    while d < digits.len()
        invariant
            d <= digits@.len(),
            v@ == base@ + seq![' ', '('] + digits@.subrange(0, d as int),
        decreases digits@.len() - d,
    {
        v.push(digits[d]);
        d = d + 1;
        proof {
            assert(v@ =~= base@ + seq![' ', '('] + digits@.subrange(0, d as int));
        }
    }
    v.push(')');
    proof {
        reveal_strlit(" (");
        reveal_strlit(")");
        assert(digits@.subrange(0, digits@.len() as int) =~= digits@);
        assert(seq![' ', '('] =~= " ("@);
        assert(seq![')'] =~= ")"@);
        assert(v@ =~= numbered_name(base@, k as nat));
    }
    chars_to_string(&v)
}

/// No free name among `base (1)` ... `base (count)` means `existing` holds
/// at least `count` distinct values.
proof fn lemma_pigeonhole(base: Seq<char>, existing: Seq<String>, count: nat)
    requires
        forall|j: nat| 1 <= j <= count ==> taken(existing, #[trigger] numbered_name(base, j)),
    ensures
        count <= existing.len(),
{
    let cands = Seq::new(count, |j: int| numbered_name(base, (j + 1) as nat));
    assert(cands.no_duplicates()) by {
        assert forall|p: int, q: int|
            0 <= p < cands.len() && 0 <= q < cands.len() && p != q implies cands[p] != cands[
            q] by {
            if cands[p] == cands[q] {
                lemma_numbered_name_injective(base, (p + 1) as nat, (q + 1) as nat);
            }
        }
    }
    cands.unique_seq_to_set();
    let views = existing.map_values(|s: String| s@);
    views.lemma_cardinality_of_set();
    assert(cands.to_set().subset_of(views.to_set())) by {
        assert forall|c: Seq<char>| cands.to_set().contains(c) implies views.to_set().contains(
            c) by {
            let j = choose|j: int| 0 <= j < cands.len() && cands[j] == c;
            assert(taken(existing, numbered_name(base, (j + 1) as nat)));
            let i = choose|i: int| 0 <= i < existing.len() && existing[i]@ == c;
            assert(views[i] == c);
        }
    }
    lemma_len_subset(cands.to_set(), views.to_set());
}

/// True when `name` is the collision-free destination derived from `base`
/// against `existing`: `base` itself when free, else the first free
/// `base (k)` counting up from 1; never a name in use.
pub open spec fn resolved_name(base: Seq<char>, existing: Seq<String>, name: Seq<char>) -> bool {
    &&& !taken(existing, name)
    &&& (!taken(existing, base) ==> name == base)
    &&& (taken(existing, base) ==> exists|k: nat|
        1 <= k && name == numbered_name(base, k) && (forall|j: nat|
            1 <= j < k ==> taken(existing, #[trigger] numbered_name(base, j))))
}

/// Picks the destination name for `base` given the names already `existing`
/// in the parent directory: `base` itself when free, else `base (k)` for
/// the smallest `k` from 1 up whose name is free. The result never collides
/// with an existing name.
pub fn get_unique_path(base: &str, existing: &Vec<String>) -> (r: String)
    requires
        existing@.len() < u64::MAX - 2,
    ensures
        resolved_name(base@, existing@, r@),
{
    let own = base.to_owned();
    if !is_taken(existing, &own) {
        return own;
    }
    let mut k: u64 = 1;
    loop
        invariant
            existing@.len() < u64::MAX - 2,
            1 <= k <= existing@.len() + 1,
            forall|j: nat| 1 <= j < k ==> taken(existing@, #[trigger] numbered_name(base@, j)),
            taken(existing@, base@),
        decreases existing@.len() + 1 - k,
    {
        let cand = numbered_string(base, k);
        if !is_taken(existing, &cand) {
            return cand;
        }
        proof {
            assert(forall|j: nat|
                1 <= j <= k ==> taken(existing@, #[trigger] numbered_name(base@, j)));
            lemma_pigeonhole(base@, existing@, k as nat);
        }
        k = k + 1;
    }
}

/// The name of the directory an archive extracts into: the file stem, with
/// a trailing `.tar` also stripped so that compound extensions name the
/// destination after the innermost content. `None` when the name is empty.
pub open spec fn spec_dest_base(name: Seq<char>) -> Option<Seq<char>> {
    if name.len() == 0 {
        None
    } else {
        let stem = spec_file_stem(name);
        if ends_with(lower(stem), ".tar"@) {
            Some(stem.subrange(0, stem.len() - 4))
        } else {
            Some(stem)
        }
    }
}

/// The stem of `v`: the characters before the last `.`, or all of `v` when
/// it has no extension.
fn stem_chars(v: &Vec<char>) -> (r: Vec<char>)
    ensures
        r@ == spec_file_stem(v@),
{
    let n = v.len();
    let mut i: usize = n;
    while i > 0
        invariant
            n == v@.len(),
            i <= n,
            forall|k: int| i <= k < n ==> v@[k] != '.',
        decreases i,
    {
        if v[i - 1] == '.' {
            proof {
                crate::classify::lemma_last_dot_found(v@, i - 1);
            }
            if i - 1 >= 1 {
                return copy_prefix(v, i - 1);
            } else {
                let r = copy_prefix(v, n);
                proof {
                    assert(v@.subrange(0, n as int) =~= v@);
                }
                return r;
            }
        }
        i = i - 1;
    }
    proof {
        crate::classify::lemma_no_dot(v@);
    }
    let r = copy_prefix(v, n);
    proof {
        assert(v@.subrange(0, n as int) =~= v@);
    }
    r
}

/// The stem of `v`, as a string.
pub fn stem_string(v: &Vec<char>) -> (r: String)
    ensures
        r@ == spec_file_stem(v@),
{
    let stem = stem_chars(v);
    chars_to_string(&stem)
}

/// The destination directory name derived from an archive's file name,
/// before collision resolution. `None` when no stem can be derived.
pub fn dest_base_name(file_name: &str) -> (r: Option<String>)
    ensures
        r is Some <==> spec_dest_base(file_name@) is Some,
        r is Some ==> r->0@ == spec_dest_base(file_name@)->0,
{
    let chars = str_to_chars(file_name);
    if chars.len() == 0 {
        return None;
    }
    let stem = stem_chars(&chars);
    if ends_with_fold(&stem, ".tar") {
        proof {
            reveal_strlit(".tar");
        }
        let r = copy_prefix(&stem, stem.len() - 4);
        Some(chars_to_string(&r))
    } else {
        Some(chars_to_string(&stem))
    }
}

} // verus!
