//! Small verified string helpers shared by the other modules.

use vstd::prelude::*;

verus! {

/// Character-wise equality of two string slices.
pub fn str_equals(a: &str, b: &str) -> (res: bool)
    ensures
        res == (a@ == b@),
{
    let n = a.unicode_len();
    if n != b.unicode_len() {
        return false;
    }
    let mut i: usize = 0;
    while i < n
        invariant
            n == a@.len(),
            n == b@.len(),
            i <= n,
            forall|j: int| 0 <= j < i ==> a@[j] == b@[j],
        decreases n - i,
    {
        if a.get_char(i) != b.get_char(i) {
            return false;
        }
        i = i + 1;
    }
    assert(a@ =~= b@);
    true
}

/// The view of an optional string slice.
pub open spec fn opt_str_view(o: Option<&str>) -> Option<Seq<char>> {
    match o {
        Some(s) => Some(s@),
        None => None,
    }
}

/// The view of an optional owned string.
pub open spec fn opt_string_view(o: Option<String>) -> Option<Seq<char>> {
    match o {
        Some(s) => Some(s@),
        None => None,
    }
}

/// The characters of a string slice, as a vector.
pub fn chars_of(s: &str) -> (res: Vec<char>)
    ensures
        res@ == s@,
{
    let n = s.unicode_len();
    let mut out: Vec<char> = Vec::new();
    let mut i: usize = 0;
    while i < n
        invariant
            n == s@.len(),
            i <= n,
            out@ == s@.subrange(0, i as int),
        decreases n - i,
    {
        out.push(s.get_char(i));
        i = i + 1;
    }
    assert(out@ =~= s@);
    out
}

/// A string made of a run of characters.
pub fn string_from_chars(cs: &Vec<char>, start: usize, end: usize) -> (res: String)
    requires
        start <= end <= cs@.len(),
    ensures
        res@ == cs@.subrange(start as int, end as int),
{
    let mut out = String::new();
    let mut i = start;
    while i < end
        invariant
            start <= i <= end,
            end <= cs@.len(),
            out@ == cs@.subrange(start as int, i as int),
        decreases end - i,
    {
        push_char(&mut out, cs[i]);
        assert(out@ =~= cs@.subrange(start as int, i + 1));
        i = i + 1;
    }
    out
}

/// A copy of the run `cs[start..end]`.
pub fn copy_range(cs: &Vec<char>, start: usize, end: usize) -> (res: Vec<char>)
    requires
        start <= end <= cs@.len(),
    ensures
        res@ == cs@.subrange(start as int, end as int),
{
    let mut out: Vec<char> = Vec::new();
    let mut i = start;
    while i < end
        invariant
            start <= i <= end,
            end <= cs@.len(),
            out@ == cs@.subrange(start as int, i as int),
        decreases end - i,
    {
        out.push(cs[i]);
        assert(out@ =~= cs@.subrange(start as int, i + 1));
        i = i + 1;
    }
    out
}

/// `String::push` of std: appends one character.
#[verifier::external_body]
pub(crate) fn push_char(s: &mut String, c: char)
    ensures
        final(s)@ == old(s)@.push(c),
{
    s.push(c);
}

/// `needle` occurs in `hay` starting at position `i`.
pub open spec fn occurs_at(hay: Seq<char>, needle: Seq<char>, i: int) -> bool {
    &&& 0 <= i
    &&& i + needle.len() <= hay.len()
    &&& hay.subrange(i, i + needle.len()) == needle
}

/// `needle` occurs somewhere in `hay`.
pub open spec fn occurs_in(hay: Seq<char>, needle: Seq<char>) -> bool {
    exists|i: int| occurs_at(hay, needle, i)
}

/// Whether `needle` occurs in `hay` at position `i`.
fn matches_at(hay: &Vec<char>, needle: &Vec<char>, i: usize) -> (res: bool)
    requires
        i + needle@.len() <= hay@.len(),
    ensures
        res == occurs_at(hay@, needle@, i as int),
{
    let m = needle.len();
    let hn = hay.len();
    let mut j: usize = 0;
    while j < m
        invariant
            m == needle@.len(),
            hn == hay@.len(),
            i + m <= hn,
            j <= m,
            forall|k: int| 0 <= k < j ==> hay@[i + k] == needle@[k],
        decreases m - j,
    {
        if hay[i + j] != needle[j] {
            assert(hay@.subrange(i as int, i + m)[j as int] != needle@[j as int]);
            return false;
        }
        j = j + 1;
    }
    assert(hay@.subrange(i as int, i + m) =~= needle@);
    true
}

/// Whether `needle` occurs in `hay`.
pub fn str_contains(hay: &str, needle: &str) -> (res: bool)
    ensures
        res == occurs_in(hay@, needle@),
{
    let h = chars_of(hay);
    let n = chars_of(needle);
    if n.len() > h.len() {
        assert forall|i: int| !occurs_at(hay@, needle@, i) by {}
        return false;
    }
    let last = h.len() - n.len();
    let mut i: usize = 0;
    while i < last
        invariant
            h@ == hay@,
            n@ == needle@,
            last + n@.len() == h@.len(),
            i <= last,
            forall|k: int| 0 <= k < i ==> !occurs_at(hay@, needle@, k),
        decreases last - i,
    {
        if matches_at(&h, &n, i) {
            return true;
        }
        i = i + 1;
    }
    if matches_at(&h, &n, last) {
        return true;
    }
    assert forall|k: int| !occurs_at(hay@, needle@, k) by {
        if 0 <= k && k + needle@.len() <= hay@.len() && k != last {
            assert(k < i);
        }
    }
    false
}

/// The position of the first `c` in `s` at or after `from`, or the length
/// of `s` when there is none.
pub open spec fn first_from(s: Seq<char>, c: char, from: int) -> int
    decreases s.len() - from,
{
    if from < 0 || from >= s.len() {
        s.len() as int
    } else if s[from] == c {
        from
    } else {
        first_from(s, c, from + 1)
    }
}

/// A position with no `c` between `from` and it, holding `c` or at the end,
/// is the first `c` from `from` on.
pub proof fn lemma_first_from(s: Seq<char>, c: char, from: int, i: int)
    requires
        0 <= from <= i <= s.len(),
        forall|j: int| from <= j < i ==> s[j] != c,
        i == s.len() || s[i] == c,
    ensures
        first_from(s, c, from) == i,
    decreases i - from,
{
    if from < i {
        lemma_first_from(s, c, from + 1, i);
    }
}

/// The position of the first `c` at or after `from`, if any.
pub fn find_char_from(s: &Vec<char>, c: char, from: usize) -> (res: Option<usize>)
    requires
        from <= s@.len(),
    ensures
        match res {
            Some(i) => i == first_from(s@, c, from as int) && from <= i < s@.len() && s@[i as int] == c,
            None => first_from(s@, c, from as int) == s@.len(),
        },
{
    let n = s.len();
    let mut i = from;
    while i < n
        invariant
            n == s@.len(),
            from <= i <= n,
            forall|j: int| from <= j < i ==> s@[j] != c,
        decreases n - i,
    {
        if s[i] == c {
            proof {
                lemma_first_from(s@, c, from as int, i as int);
            }
            return Some(i);
        }
        i = i + 1;
    }
    proof {
        lemma_first_from(s@, c, from as int, n as int);
    }
    None
}

/// Whether a character is white space: the code points with the Unicode
/// `White_Space` property, which `char::is_whitespace` of std tests for.
pub open spec fn is_white_space(c: char) -> bool {
    let u = c as u32;
    ||| 0x09 <= u <= 0x0d
    ||| u == 0x20
    ||| u == 0x85
    ||| u == 0xa0
    ||| u == 0x1680
    ||| 0x2000 <= u <= 0x200a
    ||| u == 0x2028
    ||| u == 0x2029
    ||| u == 0x202f
    ||| u == 0x205f
    ||| u == 0x3000
}

/// Whether a character is white space, by its code point.
pub fn char_is_whitespace(c: char) -> (res: bool)
    ensures
        res == is_white_space(c),
{
    let u: u32 = c as u32;
    (0x09 <= u && u <= 0x0d) || u == 0x20 || u == 0x85 || u == 0xa0 || u == 0x1680 || (0x2000 <= u
        && u <= 0x200a) || u == 0x2028 || u == 0x2029 || u == 0x202f || u == 0x205f || u == 0x3000
}

/// `s` with its leading and trailing white space removed, as `str::trim`
/// does: the part from the first to the last character that is not white
/// space, or nothing when there is none.
pub open spec fn trimmed(s: Seq<char>) -> Seq<char> {
    if forall|i: int| 0 <= i < s.len() ==> is_white_space(#[trigger] s[i]) {
        Seq::empty()
    } else {
        let first = choose|i: int|
            0 <= i < s.len() && !is_white_space(s[i]) && forall|j: int| 0 <= j < i ==> is_white_space(#[trigger] s[j]);
        let last = choose|i: int|
            0 <= i < s.len() && !is_white_space(s[i]) && forall|j: int| i < j < s.len() ==> is_white_space(#[trigger] s[j]);
        s.subrange(first, last + 1)
    }
}

/// When `first` and `last` are the first and the last characters of `s`
/// that are not white space, trimming keeps exactly `first..=last`.
pub proof fn lemma_trimmed_between(s: Seq<char>, first: int, last: int)
    requires
        0 <= first <= last < s.len(),
        !is_white_space(s[first]),
        !is_white_space(s[last]),
        forall|j: int| 0 <= j < first ==> is_white_space(#[trigger] s[j]),
        forall|j: int| last < j < s.len() ==> is_white_space(#[trigger] s[j]),
    ensures
        trimmed(s) == s.subrange(first, last + 1),
{
    reveal(trimmed);
    assert(!(forall|i: int| 0 <= i < s.len() ==> is_white_space(#[trigger] s[i])));
    let cf = choose|i: int|
        0 <= i < s.len() && !is_white_space(s[i]) && forall|j: int| 0 <= j < i ==> is_white_space(#[trigger] s[j]);
    let cl = choose|i: int|
        0 <= i < s.len() && !is_white_space(s[i]) && forall|j: int| i < j < s.len() ==> is_white_space(#[trigger] s[j]);
    assert(cf == first) by {
        if cf < first {
            assert(is_white_space(s[cf]));
        }
        if first < cf {
            assert(is_white_space(s[first]));
        }
    }
    assert(cl == last) by {
        if cl < last {
            assert(is_white_space(s[cl]));
        }
        if last < cl {
            assert(is_white_space(s[last]));
        }
    }
}

/// Trims white space from both ends of the run `cs[start..end]`.
pub fn trim_range(cs: &Vec<char>, start: usize, end: usize) -> (res: String)
    requires
        start <= end <= cs@.len(),
    ensures
        res@ == trimmed(cs@.subrange(start as int, end as int)),
{
    let ghost s = cs@.subrange(start as int, end as int);
    let mut lo = start;
    while lo < end && char_is_whitespace(cs[lo])
        invariant
            start <= lo <= end,
            end <= cs@.len(),
            s == cs@.subrange(start as int, end as int),
            forall|j: int| 0 <= j < lo - start ==> is_white_space(#[trigger] s[j]),
        decreases end - lo,
    {
        lo = lo + 1;
    }
    if lo == end {
        reveal(trimmed);
        assert forall|i: int| 0 <= i < s.len() implies is_white_space(#[trigger] s[i]) by {}
        return String::new();
    }
    assert(!is_white_space(s[lo - start]));
    let mut hi = end;
    while hi > lo + 1 && char_is_whitespace(cs[hi - 1])
        invariant
            start <= lo < hi <= end,
            end <= cs@.len(),
            s == cs@.subrange(start as int, end as int),
            !is_white_space(s[lo - start]),
            forall|j: int| hi - start <= j < s.len() ==> is_white_space(#[trigger] s[j]),
        decreases hi,
    {
        hi = hi - 1;
    }
    let ghost first = lo - start;
    let ghost last = hi - 1 - start;
    assert(!is_white_space(s[last]));
    proof {
        lemma_trimmed_between(s, first, last);
    }
    let out = string_from_chars(cs, lo, hi);
    assert(out@ =~= s.subrange(first, last + 1));
    out
}

} // verus!
