//! Character-level string helpers over the `Seq<char>` view of strings.

use vstd::prelude::*;

verus! {

/// ASCII lower-casing of one character; every other character is kept.
pub open spec fn lower_char(c: char) -> char {
    if 65 <= (c as u32) && (c as u32) <= 90 {
        ((c as u32) + 32) as char
    } else {
        c
    }
}

/// ASCII lower-casing of a whole string.
pub open spec fn lower(s: Seq<char>) -> Seq<char> {
    s.map_values(|c: char| lower_char(c))
}

/// `p` occurs in `s` starting at position `i`.
pub open spec fn occurs_at(s: Seq<char>, p: Seq<char>, i: int) -> bool {
    0 <= i && i + p.len() <= s.len() && s.subrange(i, i + p.len()) == p
}

/// `p` occurs somewhere in `s`.
pub open spec fn has_substring(s: Seq<char>, p: Seq<char>) -> bool {
    exists|i: int| occurs_at(s, p, i)
}

/// `s` begins with `p`.
pub open spec fn begins_with(s: Seq<char>, p: Seq<char>) -> bool {
    occurs_at(s, p, 0)
}

/// Compares two characters after lower-casing the first one.
pub fn lower_char_matches(c: char, t: char) -> (r: bool)
    ensures
        r == (lower_char(c) == t),
{
    let cu = c as u32;
    let tu = t as u32;
    if 65 <= cu && cu <= 90 {
        cu + 32 == tu
    } else {
        cu == tu
    }
}


/// The string as seen by a comparison: lower-cased when `fold` is set.
pub open spec fn folded(s: Seq<char>, fold: bool) -> Seq<char> {
    if fold { lower(s) } else { s }
}

/// Character `i` of `s`, lower-cased when `fold` is set, compared with `t`.
fn char_matches(s: &str, i: usize, t: char, fold: bool) -> (r: bool)
    requires
        i < s@.len(),
    ensures
        r == (folded(s@, fold)[i as int] == t),
{
    let c = s.get_char(i);
    if fold {
        lower_char_matches(c, t)
    } else {
        c == t
    }
}

/// Whether `p` occurs in `s` (lower-cased when `fold` is set) at position `at`.
fn matches_at(s: &str, p: &str, at: usize, fold: bool) -> (r: bool)
    ensures
        r == occurs_at(folded(s@, fold), p@, at as int),
{
    let slen = s.unicode_len();
    let plen = p.unicode_len();
    if plen > slen || at > slen - plen {
        return false;
    }
    let mut j: usize = 0;
    while j < plen
        invariant
            slen == s@.len(),
            plen == p@.len(),
            at + plen <= slen,
            j <= plen,
            folded(s@, fold).len() == s@.len(),
            forall|k: int| 0 <= k < j ==> folded(s@, fold)[at + k] == p@[k],
        decreases plen - j,
    {
        if !char_matches(s, at + j, p.get_char(j), fold) {
            assert(folded(s@, fold).subrange(at as int, at + plen)[j as int] != p@[j as int]);
            return false;
        }
        j = j + 1;
    }
    assert(folded(s@, fold).subrange(at as int, at + plen) =~= p@);
    true
}

/// Whether `p` occurs anywhere in `s` (lower-cased when `fold` is set).
fn find_in(s: &str, p: &str, fold: bool) -> (r: bool)
    ensures
        r == has_substring(folded(s@, fold), p@),
{
    let slen = s.unicode_len();
    let plen = p.unicode_len();
    if plen > slen {
        assert(!has_substring(folded(s@, fold), p@));
        return false;
    }
    let mut i: usize = 0;
    while i <= slen - plen
        invariant
            slen == s@.len(),
            plen == p@.len(),
            plen <= slen,
            i <= slen - plen,
            folded(s@, fold).len() == s@.len(),
            forall|k: int| 0 <= k < i ==> !occurs_at(folded(s@, fold), p@, k),
        ensures
            forall|k: int| 0 <= k <= slen - plen ==> !occurs_at(folded(s@, fold), p@, k),
        decreases slen - plen + 1 - i,
    {
        if matches_at(s, p, i, fold) {
            return true;
        }
        if i == slen - plen {
            break;
        }
        i = i + 1;
    }
    assert forall|k: int| !occurs_at(folded(s@, fold), p@, k) by {
        if 0 <= k <= slen - plen {
        }
    }
    false
}

/// Exact equality of two strings.
pub fn str_equals(a: &str, b: &str) -> (r: bool)
    ensures
        r == (a@ == b@),
{
    if a.unicode_len() != b.unicode_len() {
        return false;
    }
    let r = matches_at(a, b, 0, false);
    assert(a@.subrange(0, a@.len() as int) =~= a@);
    r
}

/// Equality of the ASCII lower-cased `s` with `p`.
pub fn lower_equals(s: &str, p: &str) -> (r: bool)
    ensures
        r == (lower(s@) == p@),
{
    if s.unicode_len() != p.unicode_len() {
        return false;
    }
    let r = matches_at(s, p, 0, true);
    assert(lower(s@).subrange(0, s@.len() as int) =~= lower(s@));
    r
}

/// Whether `p` occurs in `s`.
pub fn contains_str(s: &str, p: &str) -> (r: bool)
    ensures
        r == has_substring(s@, p@),
{
    find_in(s, p, false)
}

/// Whether `p` occurs in the ASCII lower-cased `s`.
pub fn lower_contains(s: &str, p: &str) -> (r: bool)
    ensures
        r == has_substring(lower(s@), p@),
{
    find_in(s, p, true)
}

/// Whether `s` begins with `p`.
pub fn starts_with_str(s: &str, p: &str) -> (r: bool)
    ensures
        r == begins_with(s@, p@),
{
    matches_at(s, p, 0, false)
}


/// The characters that carry the Unicode `White_Space` property.
pub open spec fn is_white_space(c: char) -> bool {
    let u = c as u32;
    ||| 9 <= u <= 13
    ||| u == 32
    ||| u == 0x85
    ||| u == 0xA0
    ||| u == 0x1680
    ||| 0x2000 <= u <= 0x200A
    ||| u == 0x2028
    ||| u == 0x2029
    ||| u == 0x202F
    ||| u == 0x205F
    ||| u == 0x3000
}

/// Whether `c` carries the Unicode `White_Space` property (what std's
/// `char::is_whitespace` tests).
pub fn char_is_whitespace(c: char) -> (r: bool)
    ensures
        r == is_white_space(c),
{
    let u = c as u32;
    (9 <= u && u <= 13) || u == 32 || u == 0x85 || u == 0xA0 || u == 0x1680 || (0x2000 <= u && u <= 0x200A)
        || u == 0x2028 || u == 0x2029 || u == 0x202F || u == 0x205F || u == 0x3000
}

/// `s` without its leading white space.
pub open spec fn trim_start(s: Seq<char>) -> Seq<char>
    decreases s.len(),
{
    if s.len() > 0 && is_white_space(s[0]) {
        trim_start(s.drop_first())
    } else {
        s
    }
}

/// `s` without its trailing white space.
pub open spec fn trim_end(s: Seq<char>) -> Seq<char>
    decreases s.len(),
{
    if s.len() > 0 && is_white_space(s.last()) {
        trim_end(s.drop_last())
    } else {
        s
    }
}

/// `s` without leading and trailing white space.
pub open spec fn trim(s: Seq<char>) -> Seq<char> {
    trim_end(trim_start(s))
}

/// Removes leading and trailing white space.
pub fn trim_str(s: &str) -> (r: &str)
    ensures
        r@ == trim(s@),
{
    let n = s.unicode_len();
    let mut i: usize = 0;
    assert(s@.subrange(0, n as int) =~= s@);
    loop
        invariant
            n == s@.len(),
            i <= n,
            trim_start(s@) == trim_start(s@.subrange(i as int, n as int)),
        ensures
            i <= n,
            trim_start(s@) == s@.subrange(i as int, n as int),
        decreases n - i,
    {
        if i == n {
            assert(s@.subrange(i as int, n as int).len() == 0);
            break;
        }
        if !char_is_whitespace(s.get_char(i)) {
            break;
        }
        assert(s@.subrange(i as int, n as int).drop_first() =~= s@.subrange(i + 1, n as int));
        i = i + 1;
    }
    let mut j: usize = n;
    loop
        invariant
            n == s@.len(),
            i <= j <= n,
            trim_end(s@.subrange(i as int, n as int)) == trim_end(s@.subrange(i as int, j as int)),
        ensures
            i <= j <= n,
            trim_end(s@.subrange(i as int, n as int)) == s@.subrange(i as int, j as int),
        decreases j - i,
    {
        if j == i {
            assert(s@.subrange(i as int, j as int).len() == 0);
            break;
        }
        if !char_is_whitespace(s.get_char(j - 1)) {
            break;
        }
        assert(s@.subrange(i as int, j as int).drop_last() =~= s@.subrange(i as int, j - 1));
        j = j - 1;
    }
    s.substring_char(i, j)
}


/// Trimming the end keeps a prefix whose last character, if any, is not white space.
proof fn lemma_trim_end_prefix(s: Seq<char>)
    ensures
        trim_end(s).len() <= s.len(),
        trim_end(s) == s.take(trim_end(s).len() as int),
        trim_end(s).len() > 0 ==> !is_white_space(trim_end(s).last()),
    decreases s.len(),
{
    if s.len() > 0 && is_white_space(s.last()) {
        lemma_trim_end_prefix(s.drop_last());
        assert(s.drop_last().take(trim_end(s).len() as int) =~= s.take(trim_end(s).len() as int));
    } else {
        assert(s.take(s.len() as int) =~= s);
    }
}

/// Trimming the start leaves a string whose first character, if any, is not white space.
proof fn lemma_trim_start_head(s: Seq<char>)
    ensures
        trim_start(s).len() > 0 ==> !is_white_space(trim_start(s)[0]),
    decreases s.len(),
{
    if s.len() > 0 && is_white_space(s[0]) {
        lemma_trim_start_head(s.drop_first());
    }
}

/// A trimmed string neither begins nor ends with white space.
pub proof fn lemma_trim_edges(s: Seq<char>)
    ensures
        trim(s).len() > 0 ==> !is_white_space(trim(s)[0]) && !is_white_space(trim(s).last()),
{
    lemma_trim_start_head(trim_start(s));
    lemma_trim_start_head(s);
    lemma_trim_end_prefix(trim_start(s));
    if trim(s).len() > 0 {
        assert(trim(s)[0] == trim_start(s)[0]);
    }
}

/// `p` occurs in `s` at position `i` (a witness for `has_substring`).
pub proof fn lemma_occurs(s: Seq<char>, p: Seq<char>, i: int)
    requires
        0 <= i,
        i + p.len() <= s.len(),
        forall|k: int| 0 <= k < p.len() ==> s[i + k] == p[k],
    ensures
        has_substring(s, p),
{
    assert(s.subrange(i, i + p.len()) =~= p);
    assert(occurs_at(s, p, i));
}

/// `p` does not occur in `s` when no place where it could start holds its
/// first two characters.
pub proof fn lemma_absent(s: Seq<char>, p: Seq<char>)
    requires
        p.len() >= 2,
        forall|i: int| 0 <= i <= s.len() - p.len() ==> #[trigger] s[i] != p[0] || s[i + 1] != p[1],
    ensures
        !has_substring(s, p),
{
    assert forall|i: int| !occurs_at(s, p, i) by {
        if occurs_at(s, p, i) {
            assert(s.subrange(i, i + p.len())[0] == s[i]);
            assert(s.subrange(i, i + p.len())[1] == s[i + 1]);
        }
    }
}

/// A string that neither begins nor ends with white space is its own trim.
pub proof fn lemma_trim_fixed(s: Seq<char>)
    requires
        s.len() > 0 ==> !is_white_space(s[0]) && !is_white_space(s.last()),
    ensures
        trim(s) == s,
{
}

/// Trimming twice gives what trimming once gives.
pub proof fn lemma_trim_idempotent(s: Seq<char>)
    ensures
        trim(trim(s)) == trim(s),
{
    lemma_trim_edges(s);
    lemma_trim_fixed(trim(s));
}

} // verus!
