//! Characters and character sequences: white space, trimming, prefixes, and
//! the conversions between `&str`, `Vec<char>` and `String` that the rest of
//! the crate builds on. Every contract is stated over `Seq<char>`.

use vstd::prelude::*;

verus! {

/// `String::push` appends one character and changes nothing else.
pub assume_specification[ String::push ](s: &mut String, c: char)
    ensures
        final(s)@ == old(s)@.push(c),
;

/// The code points with the Unicode property `White_Space`.
pub open spec fn is_whitespace(c: char) -> bool {
    let n = c as u32;
    ||| 0x09 <= n <= 0x0D
    ||| n == 0x20
    ||| n == 0x85
    ||| n == 0xA0
    ||| n == 0x1680
    ||| 0x2000 <= n <= 0x200A
    ||| n == 0x2028
    ||| n == 0x2029
    ||| n == 0x202F
    ||| n == 0x205F
    ||| n == 0x3000
}

/// `s` without its leading white space.
pub open spec fn trim_start(s: Seq<char>) -> Seq<char>
    decreases s.len(),
{
    if s.len() > 0 && is_whitespace(s[0]) {
        trim_start(s.skip(1))
    } else {
        s
    }
}

/// `s` without its trailing white space.
pub open spec fn trim_end(s: Seq<char>) -> Seq<char>
    decreases s.len(),
{
    if s.len() > 0 && is_whitespace(s.last()) {
        trim_end(s.drop_last())
    } else {
        s
    }
}

/// `s` without leading and trailing white space.
pub open spec fn trim(s: Seq<char>) -> Seq<char> {
    trim_end(trim_start(s))
}

/// Every character of `s` is white space (the empty sequence included).
pub open spec fn is_blank(s: Seq<char>) -> bool {
    forall|i: int| 0 <= i < s.len() ==> is_whitespace(#[trigger] s[i])
}

/// `s` begins with `prefix`.
pub open spec fn has_prefix(s: Seq<char>, prefix: Seq<char>) -> bool {
    prefix.len() <= s.len() && s.take(prefix.len() as int) == prefix
}

/// Tells whether `c` is white space.
pub fn whitespace(c: char) -> (b: bool)
    ensures
        b == is_whitespace(c),
{
    let n: u32 = c as u32;
    (0x09 <= n && n <= 0x0D) || n == 0x20 || n == 0x85 || n == 0xA0 || n == 0x1680 || (0x2000 <= n
        && n <= 0x200A) || n == 0x2028 || n == 0x2029 || n == 0x202F || n == 0x205F || n == 0x3000
}

/// Dropping `i` leading white-space characters that are followed by the end
/// of the sequence or by a character that is not white space is `trim_start`.
pub proof fn lemma_trim_start_is_skip(s: Seq<char>, i: int)
    requires
        0 <= i <= s.len(),
        forall|k: int| 0 <= k < i ==> is_whitespace(#[trigger] s[k]),
        i < s.len() ==> !is_whitespace(s[i]),
    ensures
        trim_start(s) == s.skip(i),
    decreases i,
{
    if i == 0 {
        assert(s.skip(0) == s);
    } else {
        let rest = s.skip(1);
        assert forall|k: int| 0 <= k < i - 1 implies is_whitespace(#[trigger] rest[k]) by {
            assert(rest[k] == s[k + 1]);
        }
        lemma_trim_start_is_skip(rest, i - 1);
        assert(rest.skip(i - 1) == s.skip(i));
    }
}

/// Keeping the first `j` characters, where all later ones are white space and
/// the one before position `j`, if any, is not, is `trim_end`.
pub proof fn lemma_trim_end_is_take(s: Seq<char>, j: int)
    requires
        0 <= j <= s.len(),
        forall|k: int| j <= k < s.len() ==> is_whitespace(#[trigger] s[k]),
        0 < j ==> !is_whitespace(s[j - 1]),
    ensures
        trim_end(s) == s.take(j),
    decreases s.len() - j,
{
    if j == s.len() {
        assert(s.take(j) == s);
    } else {
        let rest = s.drop_last();
        assert forall|k: int| j <= k < rest.len() implies is_whitespace(#[trigger] rest[k]) by {
            assert(rest[k] == s[k]);
        }
        lemma_trim_end_is_take(rest, j);
        assert(rest.take(j) == s.take(j));
    }
}

/// The characters of `s`, in order.
pub fn chars_of(s: &str) -> (v: Vec<char>)
    ensures
        v@ == s@,
{
    let mut v: Vec<char> = Vec::new();
    for c in it: s.chars()
        invariant
            v@ == it.seq().take(it.index() as int),
    {
        v.push(c);
    }
    v
}

/// The string made of the characters `v[from..to]`.
pub fn string_of(v: &Vec<char>, from: usize, to: usize) -> (s: String)
    requires
        from <= to <= v.len(),
    ensures
        s@ == v@.subrange(from as int, to as int),
{
    let mut s = String::new();
    let mut i: usize = from;
    while i < to
        invariant
            from <= i <= to <= v.len(),
            s@ == v@.subrange(from as int, i as int),
        decreases to - i,
    {
        s.push(v[i]);
        i += 1;
    }
    s
}

/// The bounds of `v[from..to]` once its leading and trailing white space is
/// left out.
pub fn trim_bounds(v: &Vec<char>, from: usize, to: usize) -> (bounds: (usize, usize))
    requires
        from <= to <= v.len(),
    ensures
        from <= bounds.0 <= bounds.1 <= to,
        v@.subrange(bounds.0 as int, bounds.1 as int) == trim(v@.subrange(from as int, to as int)),
{
    let ghost piece = v@.subrange(from as int, to as int);
    let mut a: usize = from;
    while a < to && whitespace(v[a])
        invariant
            from <= a <= to <= v.len(),
            piece == v@.subrange(from as int, to as int),
            forall|k: int| 0 <= k < a - from ==> is_whitespace(#[trigger] piece[k]),
        decreases to - a,
    {
        a += 1;
    }
    let ghost started = piece.skip(a - from);
    proof {
        lemma_trim_start_is_skip(piece, a - from);
        assert(started == v@.subrange(a as int, to as int));
    }
    let mut b: usize = to;
    while a < b && whitespace(v[b - 1])
        invariant
            a <= b <= to <= v.len(),
            started == v@.subrange(a as int, to as int),
            forall|k: int| b - a <= k < started.len() ==> is_whitespace(#[trigger] started[k]),
        decreases b - a,
    {
        b -= 1;
    }
    proof {
        lemma_trim_end_is_take(started, b - a);
        assert(started.take(b - a) == v@.subrange(a as int, b as int));
    }
    (a, b)
}

/// Tells whether `v[from..to]` begins with `prefix`.
pub fn starts_with(v: &Vec<char>, from: usize, to: usize, prefix: &Vec<char>) -> (b: bool)
    requires
        from <= to <= v.len(),
    ensures
        b == has_prefix(v@.subrange(from as int, to as int), prefix@),
{
    let ghost piece = v@.subrange(from as int, to as int);
    if prefix.len() > to - from {
        return false;
    }
    let mut i: usize = 0;
    while i < prefix.len()
        invariant
            from <= to <= v.len(),
            prefix.len() <= to - from,
            0 <= i <= prefix.len(),
            piece == v@.subrange(from as int, to as int),
            forall|k: int| 0 <= k < i ==> piece[k] == prefix@[k],
        decreases prefix.len() - i,
    {
        if v[from + i] != prefix[i] {
            proof {
                assert(piece[i as int] != prefix@[i as int]);
                assert(piece.take(prefix.len() as int)[i as int] == piece[i as int]);
            }
            return false;
        }
        i += 1;
    }
    assert(piece.take(prefix.len() as int) =~= prefix@);
    true
}

/// Tells whether every character of `s` is white space.
pub fn blank(s: &str) -> (b: bool)
    ensures
        b == is_blank(s@),
        b == (trim(s@).len() == 0),
{
    let v = chars_of(s);
    let (a, b) = trim_bounds(&v, 0, v.len());
    proof {
        assert(v@.subrange(0, v.len() as int) == v@);
        lemma_blank_iff_trim_empty(s@);
    }
    a == b
}

/// A sequence is blank exactly when trimming it leaves nothing.
pub proof fn lemma_blank_iff_trim_empty(s: Seq<char>)
    ensures
        is_blank(s) <==> trim(s).len() == 0,
    decreases s.len(),
{
    if s.len() == 0 {
    } else if is_whitespace(s[0]) {
        let rest = s.skip(1);
        lemma_blank_iff_trim_empty(rest);
        if is_blank(rest) {
            assert forall|i: int| 0 <= i < s.len() implies is_whitespace(#[trigger] s[i]) by {
                if i > 0 {
                    assert(s[i] == rest[i - 1]);
                }
            }
        }
        if is_blank(s) {
            assert forall|i: int| 0 <= i < rest.len() implies is_whitespace(#[trigger] rest[i]) by {
                assert(rest[i] == s[i + 1]);
            }
        }
    } else {
        assert(trim_start(s) == s);
        lemma_trim_end_keeps_first(s);
    }
}

/// Trimming the end of a sequence that starts with a character that is not
/// white space leaves at least that character.
proof fn lemma_trim_end_keeps_first(s: Seq<char>)
    requires
        s.len() > 0,
        !is_whitespace(s[0]),
    ensures
        trim_end(s).len() > 0,
    decreases s.len(),
{
    if is_whitespace(s.last()) {
        assert(s.len() > 1);
        assert(s.drop_last()[0] == s[0]);
        lemma_trim_end_keeps_first(s.drop_last());
    }
}

} // verus!
