//! Decimal text of integers: how an identifier is written into a token and
//! read back from one.
//!
//! Writing produces the shortest form (`-` for negative numbers, no leading
//! zeros). Reading accepts an optional `+` or `-` followed by one or more
//! ASCII digits and nothing else.

use crate::text::chars_of;
use vstd::prelude::*;

verus! {

/// The character for the digit `d`, `0 <= d <= 9`.
pub open spec fn digit_char(d: int) -> char {
    if d == 0 {
        '0'
    } else if d == 1 {
        '1'
    } else if d == 2 {
        '2'
    } else if d == 3 {
        '3'
    } else if d == 4 {
        '4'
    } else if d == 5 {
        '5'
    } else if d == 6 {
        '6'
    } else if d == 7 {
        '7'
    } else if d == 8 {
        '8'
    } else {
        '9'
    }
}

/// `c` is one of `0` to `9`.
pub open spec fn is_digit(c: char) -> bool {
    0x30 <= c as u32 <= 0x39
}

/// The number that the digit `c` stands for.
pub open spec fn digit_value(c: char) -> int {
    c as u32 - 0x30
}

/// The digits of `n`, most significant first, without leading zeros.
pub open spec fn digits(n: nat) -> Seq<char>
    decreases n,
{
    if n < 10 {
        seq![digit_char(n as int)]
    } else {
        digits(n / 10).push(digit_char((n % 10) as int))
    }
}

/// The decimal text of `n`.
pub open spec fn decimal(n: int) -> Seq<char> {
    if n < 0 {
        seq!['-'] + digits((-n) as nat)
    } else {
        digits(n as nat)
    }
}

/// Every character of `s` is a digit.
pub open spec fn all_digits(s: Seq<char>) -> bool {
    forall|i: int| 0 <= i < s.len() ==> is_digit(#[trigger] s[i])
}

/// The number that a sequence of digits stands for.
pub open spec fn digits_value(s: Seq<char>) -> nat
    decreases s.len(),
{
    if s.len() == 0 {
        0
    } else {
        (digits_value(s.drop_last()) * 10 + digit_value(s.last())) as nat
    }
}

/// The integer that `s` stands for, if it is an optional sign followed by at
/// least one digit.
pub open spec fn integer_value(s: Seq<char>) -> Option<int> {
    if s.len() > 0 && (s[0] == '-' || s[0] == '+') {
        let rest = s.skip(1);
        if rest.len() > 0 && all_digits(rest) {
            if s[0] == '-' {
                Some(-(digits_value(rest) as int))
            } else {
                Some(digits_value(rest) as int)
            }
        } else {
            None
        }
    } else if s.len() > 0 && all_digits(s) {
        Some(digits_value(s) as int)
    } else {
        None
    }
}

/// The `i64` that `s` stands for: its integer value, where that fits.
pub open spec fn parsed_i64(s: Seq<char>) -> Option<i64> {
    match integer_value(s) {
        Some(v) => if i64::MIN <= v <= i64::MAX {
            Some(v as i64)
        } else {
            None
        },
        None => None,
    }
}

/// The digits of `n`, or nothing for zero: what is left to write once the
/// lower digits of a number have been taken off.
spec fn leading_digits(n: nat) -> Seq<char> {
    if n == 0 {
        Seq::empty()
    } else {
        digits(n)
    }
}

proof fn lemma_digits_split(n: nat)
    ensures
        digits(n) == leading_digits(n / 10).push(digit_char((n % 10) as int)),
{
    if n < 10 {
        assert(n / 10 == 0);
        assert(n % 10 == n);
        assert(digits(n) =~= Seq::<char>::empty().push(digit_char(n as int)));
    }
}

/// The digits of a number are digits, and read back as the number.
pub proof fn lemma_digits_value(n: nat)
    ensures
        digits(n).len() > 0,
        all_digits(digits(n)),
        digits_value(digits(n)) == n,
    decreases n,
{
    if n < 10 {
        let s = digits(n);
        assert(s.drop_last() =~= Seq::<char>::empty());
        assert(digits_value(s.drop_last()) == 0);
    } else {
        lemma_digits_value(n / 10);
        let s = digits(n);
        let head = digits(n / 10);
        assert(s.drop_last() =~= head);
        assert(s.last() == digit_char((n % 10) as int));
        assert forall|i: int| 0 <= i < s.len() implies is_digit(#[trigger] s[i]) by {
            if i < head.len() {
                assert(s[i] == head[i]);
            }
        }
    }
}

/// Reading the decimal text of an integer gives the integer back.
pub proof fn lemma_decimal_round_trip(n: int)
    ensures
        integer_value(decimal(n)) == Some(n),
{
    if n < 0 {
        let m = (-n) as nat;
        lemma_digits_value(m);
        let s = decimal(n);
        assert(s.skip(1) =~= digits(m));
    } else {
        lemma_digits_value(n as nat);
        let s = decimal(n);
        assert(is_digit(s[0]));
    }
}

/// An `i64` written in decimal and read back is the same `i64`.
pub proof fn lemma_i64_round_trip(n: i64)
    ensures
        parsed_i64(decimal(n as int)) == Some(n),
{
    lemma_decimal_round_trip(n as int);
}

/// A longer run of digits stands for a number that is at least as large.
proof fn lemma_digits_value_grows(s: Seq<char>, i: int, j: int)
    requires
        0 <= i <= j <= s.len(),
        all_digits(s),
    ensures
        digits_value(s.take(i)) <= digits_value(s.take(j)),
    decreases j - i,
{
    if i < j {
        lemma_digits_value_grows(s, i, j - 1);
        let longer = s.take(j);
        assert(longer.drop_last() =~= s.take(j - 1));
        assert(is_digit(s[j - 1]));
        assert(longer.last() == s[j - 1]);
    }
}

/// The character for the digit `d`.
fn digit_to_char(d: u8) -> (c: char)
    requires
        d <= 9,
    ensures
        c == digit_char(d as int),
        is_digit(c),
        digit_value(c) == d,
{
    if d == 0 {
        '0'
    } else if d == 1 {
        '1'
    } else if d == 2 {
        '2'
    } else if d == 3 {
        '3'
    } else if d == 4 {
        '4'
    } else if d == 5 {
        '5'
    } else if d == 6 {
        '6'
    } else if d == 7 {
        '7'
    } else if d == 8 {
        '8'
    } else {
        '9'
    }
}

/// Appends the digits of `n` to `out`.
pub fn push_digits(out: &mut String, n: u64)
    ensures
        final(out)@ == old(out)@ + digits(n as nat),
{
    let mut low: Vec<char> = Vec::new();
    let mut m: u64 = n;
    proof {
        lemma_digits_split(m as nat);
    }
    low.push(digit_to_char((m % 10) as u8));
    m = m / 10;
    while m > 0
        invariant
            digits(n as nat) == leading_digits(m as nat) + low@.reverse(),
            low.len() > 0,
        decreases m,
    {
        proof {
            lemma_digits_split(m as nat);
        }
        let ghost before = low@;
        let c = digit_to_char((m % 10) as u8);
        low.push(c);
        proof {
            assert(low@.reverse() =~= seq![c] + before.reverse());
            assert(leading_digits(m as nat) + before.reverse() =~= leading_digits((m / 10) as nat)
                + low@.reverse());
        }
        m = m / 10;
    }
    assert(digits(n as nat) =~= low@.reverse());
    let mut i: usize = low.len();
    while i > 0
        invariant
            i <= low.len(),
            out@ == old(out)@ + low@.reverse().take(low.len() - i),
        decreases i,
    {
        i -= 1;
        out.push(low[i]);
        assert(low@.reverse().take(low.len() - i) =~= low@.reverse().take(low.len() - i - 1).push(
            low@[i as int],
        ));
    }
    assert(low@.reverse().take(low.len() as int) =~= low@.reverse());
}

/// The decimal text of `n`.
pub fn format_i64(n: i64) -> (s: String)
    ensures
        s@ == decimal(n as int),
{
    let mut s = String::new();
    if n < 0 {
        s.push('-');
        let magnitude: u64 = (-(n + 1)) as u64 + 1;
        push_digits(&mut s, magnitude);
        assert(s@ =~= seq!['-'] + digits((-n) as nat));
    } else {
        push_digits(&mut s, n as u64);
        assert(s@ =~= digits(n as nat));
    }
    s
}

/// Reads an `i64` from its decimal text.
///
/// The text is read whole: white space, a lone sign, an empty text or a value
/// outside the range of `i64` gives `None`.
pub fn parse_i64(s: &str) -> (r: Option<i64>)
    ensures
        r == parsed_i64(s@),
{
    let v = chars_of(s);
    if v.len() == 0 {
        return None;
    }
    let negative = v[0] == '-';
    let start: usize = if negative || v[0] == '+' {
        1
    } else {
        0
    };
    if start == v.len() {
        return None;
    }
    let ghost body = v@.skip(start as int);
    // `acc` is the negated value of the digits read so far: the negative range
    // of `i64` is the larger one.
    let mut acc: i64 = 0;
    let mut i: usize = start;
    assert(body.take(0) =~= Seq::<char>::empty());
    while i < v.len()
        invariant
            v@ == s@,
            v.len() > 0,
            start == (if v@[0] == '-' || v@[0] == '+' {
                1int
            } else {
                0int
            }),
            start <= i <= v.len(),
            body == v@.skip(start as int),
            all_digits(body.take(i - start)),
            acc == -(digits_value(body.take(i - start)) as int),
        decreases v.len() - i,
    {
        let c = v[i];
        let code: u32 = c as u32;
        if code < 0x30 || code > 0x39 {
            assert(body[i - start] == c);
            assert(!all_digits(body));
            proof {
                if start == 0 {
                    assert(body =~= v@);
                }
            }
            return None;
        }
        let d: i64 = (code - 0x30) as i64;
        let ghost seen = body.take(i - start + 1);
        proof {
            assert(seen.drop_last() =~= body.take(i - start));
            assert(seen.last() == c);
            assert forall|k: int| 0 <= k < seen.len() implies is_digit(#[trigger] seen[k]) by {
                if k < i - start {
                    assert(seen[k] == body.take(i - start)[k]);
                }
            }
        }
        let next = match acc.checked_mul(10) {
            Some(tens) => tens.checked_sub(d),
            None => None,
        };
        match next {
            Some(value) => {
                acc = value;
            },
            None => {
                proof {
                    assert(digits_value(seen) > -(i64::MIN as int));
                    if all_digits(body) {
                        lemma_digits_value_grows(body, i - start + 1, body.len() as int);
                        assert(body.take(body.len() as int) =~= body);
                    }
                    if start == 0 {
                        assert(body =~= v@);
                    }
                }
                return None;
            },
        }
        i += 1;
    }
    proof {
        assert(body.take(body.len() as int) =~= body);
        if start == 0 {
            assert(body =~= v@);
        }
    }
    if negative {
        Some(acc)
    } else if acc == i64::MIN {
        None
    } else {
        Some(-acc)
    }
}

} // verus!
