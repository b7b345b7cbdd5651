//! Text normalization for output comparison.
//!
//! Outputs are compared after stripping leading and trailing whitespace.
//! Whitespace inside the remaining text is significant: runs of blanks or
//! newlines between two visible characters are compared exactly.

use vstd::prelude::*;

verus! {

/// Whether `c` is whitespace: the code points that carry the Unicode
/// `White_Space` property.
pub open spec fn is_whitespace(c: char) -> bool {
    let n = c as u32;
    ||| 0x09 <= n <= 0x0D
    ||| n == 0x20
    ||| n == 0x85
    ||| n == 0xA0
    ||| n == 0x1680
    ||| 0x2000 <= n <= 0x200A
    ||| n == 0x2028
    ||| n == 0x2029
    ||| n == 0x202F
    ||| n == 0x205F
    ||| n == 0x3000
}

/// `s` without its leading whitespace.
pub open spec fn trim_start(s: Seq<char>) -> Seq<char>
    decreases s.len(),
{
    if s.len() > 0 && is_whitespace(s.first()) {
        trim_start(s.drop_first())
    } else {
        s
    }
}

/// `s` without its trailing whitespace.
pub open spec fn trim_end(s: Seq<char>) -> Seq<char>
    decreases s.len(),
{
    if s.len() > 0 && is_whitespace(s.last()) {
        trim_end(s.drop_last())
    } else {
        s
    }
}

/// The normal form of a piece of output: leading and trailing whitespace
/// removed, everything in between untouched.
pub open spec fn trimmed(s: Seq<char>) -> Seq<char> {
    trim_end(trim_start(s))
}

/// If the first `a` characters of `s` are whitespace and the next one (if
/// any) is not, `trim_start` drops exactly those `a` characters.
pub proof fn lemma_trim_start_is_suffix(s: Seq<char>, a: int)
    requires
        0 <= a <= s.len(),
        forall|i: int| 0 <= i < a ==> is_whitespace(#[trigger] s[i]),
        a == s.len() || !is_whitespace(s[a]),
    ensures
        trim_start(s) == s.subrange(a, s.len() as int),
    decreases a,
{
    if a == 0 {
        assert(s.subrange(0, s.len() as int) =~= s);
    } else {
        let rest = s.drop_first();
        assert(is_whitespace(s[0]));
        assert forall|i: int| 0 <= i < a - 1 implies is_whitespace(#[trigger] rest[i]) by {
            assert(rest[i] == s[i + 1]);
        }
        lemma_trim_start_is_suffix(rest, a - 1);
        assert(rest.subrange(a - 1, rest.len() as int) =~= s.subrange(a, s.len() as int));
    }
}

/// If everything from index `b` on is whitespace and the character before
/// `b` (if any) is not, `trim_end` keeps exactly the first `b` characters.
pub proof fn lemma_trim_end_is_prefix(s: Seq<char>, b: int)
    requires
        0 <= b <= s.len(),
        forall|i: int| b <= i < s.len() ==> is_whitespace(#[trigger] s[i]),
        b == 0 || !is_whitespace(s[b - 1]),
    ensures
        trim_end(s) == s.subrange(0, b),
    decreases s.len() - b,
{
    if b == s.len() {
        assert(s.subrange(0, b) =~= s);
    } else {
        let rest = s.drop_last();
        assert(is_whitespace(s[s.len() - 1]));
        lemma_trim_end_is_prefix(rest, b);
        assert(rest.subrange(0, b) =~= s.subrange(0, b));
    }
}

/// Normalizing twice is the same as normalizing once.
pub proof fn lemma_trimmed_idempotent(s: Seq<char>)
    ensures
        trimmed(trimmed(s)) == trimmed(s),
{
    let t = trimmed(s);
    lemma_trimmed_has_no_outer_whitespace(s);
    assert(trim_start(t) == t);
    assert(trim_end(t) == t);
}

/// The normal form neither starts nor ends with whitespace.
pub proof fn lemma_trimmed_has_no_outer_whitespace(s: Seq<char>)
    ensures
        trimmed(s).len() > 0 ==> !is_whitespace(trimmed(s).first()) && !is_whitespace(
            trimmed(s).last(),
        ),
{
    lemma_trim_start_shape(s);
    lemma_trim_end_shape(trim_start(s));
    let m = trim_start(s);
    let t = trim_end(m);
    if t.len() > 0 {
        // `t` is a non-empty prefix of `m`, so both begin with the same character
        assert(t.first() == m.first());
    }
}

/// `trim_start(s)` is a suffix of `s` that does not begin with whitespace.
pub proof fn lemma_trim_start_shape(s: Seq<char>)
    ensures
        trim_start(s).len() <= s.len(),
        trim_start(s) == s.subrange(s.len() - trim_start(s).len(), s.len() as int),
        trim_start(s).len() > 0 ==> !is_whitespace(trim_start(s).first()),
    decreases s.len(),
{
    if s.len() > 0 && is_whitespace(s.first()) {
        let rest = s.drop_first();
        lemma_trim_start_shape(rest);
        let k = trim_start(rest).len();
        assert(rest.subrange(rest.len() - k, rest.len() as int) =~= s.subrange(
            s.len() - k,
            s.len() as int,
        ));
    } else {
        assert(s.subrange(0, s.len() as int) =~= s);
    }
}

/// `trim_end(s)` is a prefix of `s` that does not end with whitespace.
pub proof fn lemma_trim_end_shape(s: Seq<char>)
    ensures
        trim_end(s).len() <= s.len(),
        trim_end(s) == s.subrange(0, trim_end(s).len() as int),
        trim_end(s).len() > 0 ==> !is_whitespace(trim_end(s).last()),
    decreases s.len(),
{
    if s.len() > 0 && is_whitespace(s.last()) {
        let rest = s.drop_last();
        lemma_trim_end_shape(rest);
        let k = trim_end(rest).len();
        assert(rest.subrange(0, k as int) =~= s.subrange(0, k as int));
    } else {
        assert(s.subrange(0, s.len() as int) =~= s);
    }
}

/// Executable test for [`is_whitespace`].
pub fn char_is_whitespace(c: char) -> (b: bool)
    ensures
        b == is_whitespace(c),
{
    let n: u32 = c as u32;
    (0x09 <= n && n <= 0x0D) || n == 0x20 || n == 0x85 || n == 0xA0 || n == 0x1680 || (0x2000 <= n
        && n <= 0x200A) || n == 0x2028 || n == 0x2029 || n == 0x202F || n == 0x205F || n == 0x3000
}

/// Strips leading and trailing whitespace from `s`.
pub fn normalize(s: &str) -> (out: String)
    ensures
        out@ == trimmed(s@),
{
    let len: usize = s.unicode_len();
    let mut start: usize = 0;
    let mut end: usize = 0;
    let mut seen: bool = false;
    let mut pos: usize = 0;
    for c in it: s.chars()
        invariant
            len == s@.len(),
            it.seq() == s@,
            pos == it.index(),
            pos <= len,
            seen ==> start < end <= pos,
            seen ==> !is_whitespace(s@[start as int]) && !is_whitespace(s@[end - 1]),
            seen ==> forall|i: int| 0 <= i < start ==> is_whitespace(#[trigger] s@[i]),
            seen ==> forall|i: int| end <= i < pos ==> is_whitespace(#[trigger] s@[i]),
            !seen ==> start == 0 && end == 0,
            !seen ==> forall|i: int| 0 <= i < pos ==> is_whitespace(#[trigger] s@[i]),
    {
        assert(c == s@[pos as int]);
        if !char_is_whitespace(c) {
            if !seen {
                start = pos;
                seen = true;
            }
            end = pos + 1;
        }
        pos = pos + 1;
    }
    proof {
        assert(pos == len);
        let full = s@;
        if seen {
            lemma_trim_start_is_suffix(full, start as int);
            let mid = full.subrange(start as int, len as int);
            assert forall|i: int| end - start <= i < mid.len() implies is_whitespace(
                #[trigger] mid[i],
            ) by {
                assert(mid[i] == full[i + start]);
            }
            assert(mid[end - start - 1] == full[end - 1]);
            lemma_trim_end_is_prefix(mid, end - start);
            assert(mid.subrange(0, end - start) =~= full.subrange(start as int, end as int));
        } else {
            lemma_trim_start_is_suffix(full, len as int);
            let mid = full.subrange(len as int, len as int);
            assert(mid.len() == 0);
            assert(trim_end(mid) == mid);
            assert(mid =~= full.subrange(0, 0));
        }
    }
    s.substring_char(start, end).to_owned()
}

} // verus!
