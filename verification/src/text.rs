//! Small verified helpers on strings and characters.
use vstd::prelude::*;

verus! {

/// The characters of `s`, in order.
pub fn chars_of(s: &str) -> (v: Vec<char>)
    ensures
        v@ == s@,
{
    let mut v: Vec<char> = Vec::new();
    for c in it: s.chars()
        invariant
            v@ == it.seq().take(it.index() as int),
            it.seq() == s@,
    {
        v.push(c);
    }
    v
}

/// Whether two strings hold the same characters.
pub fn str_equal(a: &str, b: &str) -> (r: bool)
    ensures
        r == (a@ == b@),
{
    let x: String = a.to_owned();
    let y: String = b.to_owned();
    x == y
}

} // verus!

verus! {

/// Whether `c` has the Unicode `White_Space` property.
pub open spec fn spec_is_whitespace(c: char) -> bool {
    let n = c as u32;
    ||| 0x09 <= n <= 0x0D
    ||| n == 0x20
    ||| n == 0x85
    ||| n == 0xA0
    ||| n == 0x1680
    ||| 0x2000 <= n <= 0x200A
    ||| n == 0x2028
    ||| n == 0x2029
    ||| n == 0x202F
    ||| n == 0x205F
    ||| n == 0x3000
}

/// Whether `c` has the Unicode `White_Space` property.
pub fn is_whitespace(c: char) -> (r: bool)
    ensures
        r == spec_is_whitespace(c),
{
    let n = c as u32;
    (0x09 <= n && n <= 0x0D) || n == 0x20 || n == 0x85 || n == 0xA0 || n == 0x1680 || (0x2000
        <= n && n <= 0x200A) || n == 0x2028 || n == 0x2029 || n == 0x202F || n == 0x205F || n
        == 0x3000
}

/// `s` without its leading white space.
pub open spec fn trim_start(s: Seq<char>) -> Seq<char>
    decreases s.len(),
{
    if s.len() > 0 && spec_is_whitespace(s[0]) {
        trim_start(s.drop_first())
    } else {
        s
    }
}

/// `s` without its trailing white space.
pub open spec fn trim_end(s: Seq<char>) -> Seq<char>
    decreases s.len(),
{
    if s.len() > 0 && spec_is_whitespace(s.last()) {
        trim_end(s.drop_last())
    } else {
        s
    }
}

/// `s` without its leading and trailing white space.
pub open spec fn spec_trim(s: Seq<char>) -> Seq<char> {
    trim_end(trim_start(s))
}

/// The bounds of `v` without its leading and trailing white space.
pub fn trim_bounds(v: &Vec<char>) -> (r: (usize, usize))
    ensures
        r.0 <= r.1 <= v@.len(),
        spec_trim(v@) == v@.subrange(r.0 as int, r.1 as int),
{
    let n = v.len();
    let mut start: usize = 0;
    assert(v@.subrange(0, n as int) =~= v@);
    while start < n && is_whitespace(v[start])
        invariant
            start <= n == v@.len(),
            trim_start(v@) == trim_start(v@.subrange(start as int, n as int)),
        decreases n - start,
    {
        assert(v@.subrange(start as int, n as int).drop_first() =~= v@.subrange(
            start + 1,
            n as int,
        ));
        start = start + 1;
    }
    let mut end: usize = n;
    while end > start && is_whitespace(v[end - 1])
        invariant
            start <= end <= n == v@.len(),
            trim_start(v@) == v@.subrange(start as int, n as int),
            trim_end(v@.subrange(start as int, n as int)) == trim_end(
                v@.subrange(start as int, end as int),
            ),
        decreases end - start,
    {
        assert(v@.subrange(start as int, end as int).drop_last() =~= v@.subrange(
            start as int,
            end - 1,
        ));
        end = end - 1;
    }
    (start, end)
}

/// Whether `s` is empty once trimmed, that is, holds only white space.
pub fn trim_is_empty(s: &str) -> (r: bool)
    ensures
        r == (spec_trim(s@).len() == 0),
{
    let v = chars_of(s);
    let (start, end) = trim_bounds(&v);
    start == end
}

/// `s` trimmed and read as a boolean: `"true"` or `"false"`, nothing else.
pub open spec fn spec_parse_trimmed_bool(s: Seq<char>) -> Option<bool> {
    if spec_trim(s) == "true"@ {
        Some(true)
    } else if spec_trim(s) == "false"@ {
        Some(false)
    } else {
        None
    }
}

/// Reads `s`, trimmed, as a boolean.
pub fn parse_trimmed_bool(s: &str) -> (r: Option<bool>)
    ensures
        r == spec_parse_trimmed_bool(s@),
{
    proof {
        reveal_strlit("true");
        reveal_strlit("false");
    }
    let v = chars_of(s);
    let (start, end) = trim_bounds(&v);
    let ghost t = v@.subrange(start as int, end as int);
    if end - start == 4 && v[start] == 't' && v[start + 1] == 'r' && v[start + 2] == 'u' && v[start
        + 3] == 'e' {
        assert(t =~= "true"@);
        Some(true)
    } else if end - start == 5 && v[start] == 'f' && v[start + 1] == 'a' && v[start + 2] == 'l'
        && v[start + 3] == 's' && v[start + 4] == 'e' {
        assert(t =~= "false"@);
        Some(false)
    } else {
        assert(t != "true"@ && t != "false"@) by {
            if t == "true"@ {
                assert(t[0] == 't' && t[1] == 'r' && t[2] == 'u' && t[3] == 'e');
            }
            if t == "false"@ {
                assert(t[0] == 'f' && t[1] == 'a' && t[2] == 'l' && t[3] == 's' && t[4] == 'e');
            }
        }
        None
    }
}

/// The one-character string holding `c`.
#[verifier::external_body]
pub(crate) fn char_to_string(c: char) -> (s: String)
    ensures
        s@ == seq![c],
{
    c.to_string()
}

proof fn lemma_trim_start_at(s: Seq<char>) -> (i: int)
    ensures
        0 <= i <= s.len(),
        trim_start(s) == s.subrange(i, s.len() as int),
        forall|k: int| 0 <= k < i ==> spec_is_whitespace(#[trigger] s[k]),
        i < s.len() ==> !spec_is_whitespace(s[i]),
    decreases s.len(),
{
    if s.len() > 0 && spec_is_whitespace(s[0]) {
        let j = lemma_trim_start_at(s.drop_first());
        assert(s.drop_first().subrange(j, s.drop_first().len() as int) =~= s.subrange(j + 1, s.len() as int));
        assert forall|k: int| 0 <= k < j + 1 implies spec_is_whitespace(#[trigger] s[k]) by {
            if k > 0 {
                assert(s[k] == s.drop_first()[k - 1]);
            }
        }
        j + 1
    } else {
        assert(s.subrange(0, s.len() as int) =~= s);
        0
    }
}

proof fn lemma_trim_end_at(s: Seq<char>) -> (j: int)
    ensures
        0 <= j <= s.len(),
        trim_end(s) == s.subrange(0, j),
        forall|k: int| j <= k < s.len() ==> spec_is_whitespace(#[trigger] s[k]),
        j > 0 ==> !spec_is_whitespace(s[j - 1]),
    decreases s.len(),
{
    if s.len() > 0 && spec_is_whitespace(s.last()) {
        let j = lemma_trim_end_at(s.drop_last());
        assert(s.drop_last().subrange(0, j) =~= s.subrange(0, j));
        assert forall|k: int| j <= k < s.len() implies spec_is_whitespace(#[trigger] s[k]) by {
            if k < s.len() - 1 {
                assert(s[k] == s.drop_last()[k]);
            }
        }
        j
    } else {
        assert(s.subrange(0, s.len() as int) =~= s);
        s.len() as int
    }
}

/// Trimming a text keeps the part of it between its leading and its trailing
/// white space: a run of the text that neither starts nor ends with white
/// space, with only white space before and after it.
pub proof fn lemma_trim_keeps_the_middle(s: Seq<char>)
    ensures
        exists|i: int, j: int|
            0 <= i <= j <= s.len() && spec_trim(s) == s.subrange(i, j) && (forall|k: int|
                0 <= k < i ==> spec_is_whitespace(#[trigger] s[k])) && (forall|k: int|
                j <= k < s.len() ==> spec_is_whitespace(#[trigger] s[k])) && (i < j
                ==> !spec_is_whitespace(s[i]) && !spec_is_whitespace(s[j - 1])),
{
    let i = lemma_trim_start_at(s);
    let t = s.subrange(i, s.len() as int);
    let j = lemma_trim_end_at(t);
    assert(t.subrange(0, j) =~= s.subrange(i, i + j));
    assert forall|k: int| i + j <= k < s.len() implies spec_is_whitespace(#[trigger] s[k]) by {
        assert(s[k] == t[k - i]);
    }
    if 0 < j {
        assert(s[i] == t[0]);
        assert(s[i + j - 1] == t[j - 1]);
    }
    assert(0 <= i <= i + j <= s.len() && spec_trim(s) == s.subrange(i, i + j));
}

/// The white space that trimming removes: the ASCII tab, line feed, line
/// tabulation, form feed, carriage return and space, and the other
/// characters of the Unicode `White_Space` property; no letter or digit.
pub proof fn lemma_white_space(c: char)
    ensures
        c == ' ' || c == '\t' || c == '\n' || c == '\r' ==> spec_is_whitespace(c),
        ('a' <= c <= 'z' || 'A' <= c <= 'Z' || '0' <= c <= '9') ==> !spec_is_whitespace(c),
        c == '\u{A0}' || c == '\u{3000}' || c == '\u{2028}' ==> spec_is_whitespace(c),
{
}

} // verus!
