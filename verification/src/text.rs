//! Text operations that the descriptors are built from: trimming and
//! substitution, stated over sequences of characters.

use vstd::prelude::*;
use vstd::string::*;

verus! {

/// Whether `c` is whitespace: one of the characters that Unicode gives the
/// property White_Space. They are the controls from tab to carriage return,
/// the space, the next-line control, the no-break space, and the spaces and
/// separators of the general punctuation block and beside it.
pub open spec fn whitespace(c: char) -> bool {
    let code: u32 = c as u32;
    ||| 0x09 <= code <= 0x0D
    ||| code == 0x20
    ||| code == 0x85
    ||| code == 0xA0
    ||| code == 0x1680
    ||| 0x2000 <= code <= 0x200A
    ||| code == 0x2028
    ||| code == 0x2029
    ||| code == 0x202F
    ||| code == 0x205F
    ||| code == 0x3000
}

/// `char::is_whitespace` of the standard library. Trusted: it is documented
/// to tell whether the character has the property White_Space, and
/// [`whitespace`] lists the characters that have it.
pub assume_specification[ char::is_whitespace ](c: char) -> (r: bool)
    ensures
        r == whitespace(c),
;

/// `s` without its leading whitespace.
pub open spec fn trim_start(s: Seq<char>) -> Seq<char>
    decreases s.len(),
{
    if s.len() > 0 && whitespace(s[0]) {
        trim_start(s.subrange(1, s.len() as int))
    } else {
        s
    }
}

/// `s` without its trailing whitespace.
pub open spec fn trim_end(s: Seq<char>) -> Seq<char>
    decreases s.len(),
{
    if s.len() > 0 && whitespace(s.last()) {
        trim_end(s.drop_last())
    } else {
        s
    }
}

/// `s` without leading and trailing whitespace.
pub open spec fn trimmed(s: Seq<char>) -> Seq<char> {
    trim_end(trim_start(s))
}

/// Every character of `s` is whitespace; the empty text is blank.
pub open spec fn blank(s: Seq<char>) -> bool {
    forall|i: int| 0 <= i < s.len() ==> whitespace(#[trigger] s[i])
}

/// Leading whitespace ends at `i`: `trim_start` keeps what starts there.
pub proof fn lemma_trim_start_at(s: Seq<char>, i: int)
    requires
        0 <= i <= s.len(),
        forall|k: int| 0 <= k < i ==> whitespace(#[trigger] s[k]),
        i < s.len() ==> !whitespace(s[i]),
    ensures
        trim_start(s) == s.subrange(i, s.len() as int),
    decreases i,
{
    if i == 0 {
        assert(s.subrange(0, s.len() as int) =~= s);
    } else {
        let t = s.subrange(1, s.len() as int);
        assert(whitespace(s[0]));
        assert forall|k: int| 0 <= k < i - 1 implies whitespace(#[trigger] t[k]) by {
            assert(t[k] == s[k + 1]);
        }
        lemma_trim_start_at(t, i - 1);
        assert(t.subrange(i - 1, t.len() as int) =~= s.subrange(i, s.len() as int));
    }
}

/// Trailing whitespace starts at `j`: `trim_end` keeps what ends there.
pub proof fn lemma_trim_end_at(s: Seq<char>, j: int)
    requires
        0 <= j <= s.len(),
        forall|k: int| j <= k < s.len() ==> whitespace(#[trigger] s[k]),
        0 < j ==> !whitespace(s[j - 1]),
    ensures
        trim_end(s) == s.subrange(0, j),
    decreases s.len() - j,
{
    if j == s.len() {
        assert(s.subrange(0, j) =~= s);
    } else {
        let t = s.drop_last();
        assert(whitespace(s[s.len() - 1]));
        assert forall|k: int| j <= k < t.len() implies whitespace(#[trigger] t[k]) by {
            assert(t[k] == s[k]);
        }
        lemma_trim_end_at(t, j);
        assert(t.subrange(0, j) =~= s.subrange(0, j));
    }
}

/// The text between the first and the last character of `s` that is not
/// whitespace, both included; empty where `s` is blank.
///
/// Characters are reached by position, so the cost is quadratic in the
/// length of `s`.
pub fn trim<'a>(s: &'a str) -> (r: &'a str)
    ensures
        r@ == trimmed(s@),
{
    let n: usize = s.unicode_len();
    let mut start: usize = 0;
    while start < n && s.get_char(start).is_whitespace()
        invariant
            n == s@.len(),
            start <= n,
            forall|k: int| 0 <= k < start ==> whitespace(#[trigger] s@[k]),
        decreases n - start,
    {
        start += 1;
    }
    let mut end: usize = n;
    while end > start && s.get_char(end - 1).is_whitespace()
        invariant
            n == s@.len(),
            start <= end <= n,
            forall|k: int| end <= k < n ==> whitespace(#[trigger] s@[k]),
        decreases end - start,
    {
        end -= 1;
    }
    proof {
        let rest = s@.subrange(start as int, n as int);
        lemma_trim_start_at(s@, start as int);
        assert forall|k: int| end - start <= k < rest.len() implies whitespace(
            #[trigger] rest[k],
        ) by {
            assert(rest[k] == s@[k + start]);
        }
        if end > start {
            assert(rest[end - start - 1] == s@[end - 1]);
        } else {
            assert(start < n ==> !whitespace(s@[start as int]));
        }
        lemma_trim_end_at(rest, end - start);
        assert(rest.subrange(0, end - start) =~= s@.subrange(start as int, end as int));
    }
    s.substring_char(start, end)
}

/// The position at which the leading whitespace of `s` ends.
pub proof fn lemma_trim_start_shape(s: Seq<char>) -> (i: int)
    ensures
        0 <= i <= s.len(),
        forall|k: int| 0 <= k < i ==> whitespace(#[trigger] s[k]),
        i < s.len() ==> !whitespace(s[i]),
        trim_start(s) == s.subrange(i, s.len() as int),
    decreases s.len(),
{
    if s.len() > 0 && whitespace(s[0]) {
        let t = s.subrange(1, s.len() as int);
        let i0 = lemma_trim_start_shape(t);
        assert forall|k: int| 0 <= k < i0 + 1 implies whitespace(#[trigger] s[k]) by {
            if k > 0 {
                assert(t[k - 1] == s[k]);
            }
        }
        if i0 + 1 < s.len() {
            assert(t[i0] == s[i0 + 1]);
        }
        assert(t.subrange(i0, t.len() as int) =~= s.subrange(i0 + 1, s.len() as int));
        i0 + 1
    } else {
        assert(s.subrange(0, s.len() as int) =~= s);
        0
    }
}

/// The position at which the trailing whitespace of `s` starts.
pub proof fn lemma_trim_end_shape(s: Seq<char>) -> (j: int)
    ensures
        0 <= j <= s.len(),
        forall|k: int| j <= k < s.len() ==> whitespace(#[trigger] s[k]),
        0 < j ==> !whitespace(s[j - 1]),
        trim_end(s) == s.subrange(0, j),
    decreases s.len(),
{
    if s.len() > 0 && whitespace(s.last()) {
        let t = s.drop_last();
        let j0 = lemma_trim_end_shape(t);
        assert forall|k: int| j0 <= k < s.len() implies whitespace(#[trigger] s[k]) by {
            if k < t.len() {
                assert(t[k] == s[k]);
            }
        }
        if 0 < j0 {
            assert(t[j0 - 1] == s[j0 - 1]);
        }
        assert(t.subrange(0, j0) =~= s.subrange(0, j0));
        j0
    } else {
        assert(s.subrange(0, s.len() as int) =~= s);
        s.len() as int
    }
}

/// A text trims to nothing exactly when it is blank.
pub proof fn lemma_blank_iff_trims_to_empty(s: Seq<char>)
    ensures
        blank(s) <==> trimmed(s).len() == 0,
{
    let i = lemma_trim_start_shape(s);
    let rest = s.subrange(i, s.len() as int);
    let j = lemma_trim_end_shape(rest);
    if blank(s) {
        if i < s.len() {
            assert(whitespace(s[i]));
        }
    }
    if trimmed(s).len() == 0 {
        if i < s.len() {
            assert(rest[0] == s[i]);
            assert(whitespace(rest[0]));
        }
    }
}

/// What is left of a text that is not blank neither starts nor ends with
/// whitespace.
pub proof fn lemma_trimmed_ends(s: Seq<char>)
    requires
        trimmed(s).len() > 0,
    ensures
        !whitespace(trimmed(s).first()),
        !whitespace(trimmed(s).last()),
{
    let i = lemma_trim_start_shape(s);
    let rest = s.subrange(i, s.len() as int);
    let j = lemma_trim_end_shape(rest);
    assert(rest.subrange(0, j)[0] == rest[0]);
    assert(rest[0] == s[i]);
    assert(rest.subrange(0, j)[j - 1] == rest[j - 1]);
}

/// Whether `pattern` stands in `s` at position `i`.
pub open spec fn occurs_at(s: Seq<char>, pattern: Seq<char>, i: int) -> bool {
    0 <= i && i + pattern.len() <= s.len() && s.subrange(i, i + pattern.len()) == pattern
}

/// `to` before every character of `s` and after the last one.
pub open spec fn interleaved(s: Seq<char>, to: Seq<char>) -> Seq<char>
    decreases s.len(),
{
    if s.len() == 0 {
        to
    } else {
        to + seq![s[0]] + interleaved(s.subrange(1, s.len() as int), to)
    }
}

/// `s` with every occurrence of `pattern` replaced by `to`. Occurrences are
/// found from the left and do not overlap. The empty pattern occurs before
/// every character and at the end.
pub open spec fn replace_all(s: Seq<char>, pattern: Seq<char>, to: Seq<char>) -> Seq<char>
    decreases s.len(),
{
    if pattern.len() == 0 {
        interleaved(s, to)
    } else if s.len() < pattern.len() {
        s
    } else if occurs_at(s, pattern, 0) {
        to + replace_all(s.subrange(pattern.len() as int, s.len() as int), pattern, to)
    } else {
        seq![s[0]] + replace_all(s.subrange(1, s.len() as int), pattern, to)
    }
}

fn occurs(s: &str, pattern: &str, at: usize, n: usize, m: usize) -> (r: bool)
    requires
        n == s@.len(),
        m == pattern@.len(),
        at + m <= n,
    ensures
        r == occurs_at(s@, pattern@, at as int),
{
    let mut j: usize = 0;
    while j < m
        invariant
            n == s@.len(),
            m == pattern@.len(),
            at + m <= n,
            j <= m,
            forall|k: int| 0 <= k < j ==> s@[at + k] == #[trigger] pattern@[k],
        decreases m - j,
    {
        if s.get_char(at + j) != pattern.get_char(j) {
            proof {
                assert(s@.subrange(at as int, at + m)[j as int] == s@[at + j]);
            }
            return false;
        }
        j += 1;
    }
    proof {
        assert(s@.subrange(at as int, at + m) =~= pattern@);
    }
    true
}

/// A copy of `s` in which `to` stands for every occurrence of `pattern`.
///
/// Characters are reached by position, so the cost is quadratic in the
/// length of `s`.
pub fn replace(s: &str, pattern: &str, to: &str) -> (r: String)
    ensures
        r@ == replace_all(s@, pattern@, to@),
{
    let n: usize = s.unicode_len();
    let m: usize = pattern.unicode_len();
    let mut out = String::new();
    let mut i: usize = 0;
    if m == 0 {
        proof {
            assert(s@.subrange(0, n as int) =~= s@);
            assert(out@ + interleaved(s@, to@) =~= interleaved(s@, to@));
        }
        while i < n
            invariant
                n == s@.len(),
                i <= n,
                out@ + interleaved(s@.subrange(i as int, n as int), to@) == interleaved(s@, to@),
            decreases n - i,
        {
            let ghost before = out@;
            let ghost rest = s@.subrange(i as int, n as int);
            out.append(to);
            out.append(s.substring_char(i, i + 1));
            proof {
                assert(rest.subrange(1, rest.len() as int) =~= s@.subrange(i + 1, n as int));
                assert(s@.subrange(i as int, i + 1) =~= seq![rest[0]]);
                let tail = interleaved(s@.subrange(i + 1, n as int), to@);
                assert(interleaved(rest, to@) == to@ + seq![rest[0]] + tail);
                assert(before + to@ + seq![rest[0]] + tail =~= before + (to@ + seq![rest[0]]
                    + tail));
            }
            i += 1;
        }
        out.append(to);
        return out;
    }
    if n < m {
        out.append(s);
        assert(out@ =~= s@);
        return out;
    }
    proof {
        assert(s@.subrange(0, n as int) =~= s@);
        assert(out@ + s@ =~= s@);
    }
    while i <= n - m
        invariant
            n == s@.len(),
            m == pattern@.len(),
            0 < m <= n,
            i <= n,
            out@ + replace_all(s@.subrange(i as int, n as int), pattern@, to@) == replace_all(
                s@,
                pattern@,
                to@,
            ),
        decreases n - i,
    {
        let ghost before = out@;
        let ghost rest = s@.subrange(i as int, n as int);
        if occurs(s, pattern, i, n, m) {
            out.append(to);
            proof {
                assert(rest.subrange(0, m as int) =~= s@.subrange(i as int, i + m));
                assert(rest.subrange(m as int, rest.len() as int) =~= s@.subrange(i + m, n as int));
                let tail = replace_all(s@.subrange(i + m, n as int), pattern@, to@);
                assert(replace_all(rest, pattern@, to@) == to@ + tail);
                assert((before + to@) + tail =~= before + (to@ + tail));
            }
            i += m;
        } else {
            out.append(s.substring_char(i, i + 1));
            proof {
                assert(rest.subrange(0, m as int) =~= s@.subrange(i as int, i + m));
                assert(rest.subrange(1, rest.len() as int) =~= s@.subrange(i + 1, n as int));
                assert(s@.subrange(i as int, i + 1) =~= seq![rest[0]]);
                let tail = replace_all(s@.subrange(i + 1, n as int), pattern@, to@);
                assert(replace_all(rest, pattern@, to@) == seq![rest[0]] + tail);
                assert((before + seq![rest[0]]) + tail =~= before + (seq![rest[0]] + tail));
            }
            i += 1;
        }
    }
    out.append(s.substring_char(i, n));
    out
}

/// Whether `s` is blank: empty, or whitespace throughout.
pub fn is_blank(s: &str) -> (r: bool)
    ensures
        r == blank(s@),
{
    proof {
        lemma_blank_iff_trims_to_empty(s@);
    }
    trim(s).is_empty()
}

/// Whether two texts hold the same characters.
pub fn same_text(a: &str, b: &str) -> (r: bool)
    ensures
        r == (a@ == b@),
{
    let n: usize = a.unicode_len();
    let m: usize = b.unicode_len();
    if n != m {
        return false;
    }
    proof {
        assert(a@.subrange(0, n as int) =~= a@);
    }
    occurs(a, b, 0, n, m)
}

} // verus!
