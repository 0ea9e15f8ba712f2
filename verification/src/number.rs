//! Decimal integers: the text that `str::parse` accepts for `i32` and
//! `usize`, and the text that `to_string` gives for an unsigned number.

use vstd::prelude::*;
use crate::text::{chars_of, push_char};

verus! {

/// An ASCII decimal digit.
pub open spec fn is_ascii_digit(c: char) -> bool {
    '0' <= c <= '9'
}

/// Every character of `s` is an ASCII digit.
pub open spec fn all_digits(s: Seq<char>) -> bool {
    forall|i: int| 0 <= i < s.len() ==> is_ascii_digit(#[trigger] s[i])
}

/// The value of a digit character.
pub open spec fn digit_value(c: char) -> int {
    c as int - '0' as int
}

/// The number that a string of digits denotes, most significant first.
pub open spec fn digits_value(s: Seq<char>) -> int
    decreases s.len(),
{
    if s.len() == 0 {
        0
    } else {
        digits_value(s.drop_last()) * 10 + digit_value(s.last())
    }
}

/// The number denoted by a non-empty run of digits.
pub open spec fn digits_number(s: Seq<char>) -> Option<int> {
    if s.len() > 0 && all_digits(s) {
        Some(digits_value(s))
    } else {
        None
    }
}

/// The integer that `s` spells, as the standard library reads it:
/// an optional `+` (or `-` when `signed`) followed by one or more ASCII
/// digits, and nothing else.
pub open spec fn integer_literal(s: Seq<char>, signed: bool) -> Option<int> {
    if s.len() > 0 && s[0] == '+' {
        digits_number(s.drop_first())
    } else if signed && s.len() > 0 && s[0] == '-' {
        match digits_number(s.drop_first()) {
            Some(v) => Some(-v),
            None => None,
        }
    } else {
        digits_number(s)
    }
}

/// What `s.parse::<i32>()` gives: the literal's value when it fits.
pub open spec fn parse_i32_spec(s: Seq<char>) -> Option<i32> {
    match integer_literal(s, true) {
        Some(v) => if i32::MIN <= v <= i32::MAX {
            Some(v as i32)
        } else {
            None
        },
        None => None,
    }
}

/// What `s.parse::<usize>()` gives: the literal's value when it fits.
pub open spec fn parse_usize_spec(s: Seq<char>) -> Option<usize> {
    match integer_literal(s, false) {
        Some(v) => if 0 <= v <= usize::MAX {
            Some(v as usize)
        } else {
            None
        },
        None => None,
    }
}

/// The digit character for `d < 10`.
pub open spec fn digit_char(d: nat) -> char {
    (d + '0' as nat) as char
}

/// The decimal representation of `n`, without sign or leading zeros.
pub open spec fn decimal(n: nat) -> Seq<char>
    decreases n,
{
    if n < 10 {
        seq![digit_char(n)]
    } else {
        decimal(n / 10).push(digit_char(n % 10))
    }
}

/// Bound above which magnitudes are no longer told apart.
pub open spec fn magnitude_cap() -> int {
    0x1_0000_0000_0000_0000
}

pub open spec fn min_int(a: int, b: int) -> int {
    if a <= b {
        a
    } else {
        b
    }
}

/// The decimal representation of a number denotes that number.
pub proof fn lemma_decimal_value(n: nat)
    ensures
        decimal(n).len() > 0,
        all_digits(decimal(n)),
        digits_value(decimal(n)) == n,
    decreases n,
{
    assert(digit_value(digit_char(n % 10)) == n % 10);
    if n < 10 {
        assert(decimal(n).drop_last() =~= Seq::<char>::empty());
        assert(decimal(n).last() == digit_char(n % 10));
        assert(digits_value(decimal(n)) == digits_value(Seq::<char>::empty()) * 10 + digit_value(digit_char(n % 10)));
    } else {
        lemma_decimal_value(n / 10);
        let s = decimal(n);
        assert(s.drop_last() =~= decimal(n / 10));
        assert(s.last() == digit_char(n % 10));
        assert(digits_value(s) == digits_value(decimal(n / 10)) * 10 + digit_value(digit_char(n % 10)));
        assert((n / 10) * 10 + n % 10 == n);
        assert forall|i: int| 0 <= i < s.len() implies is_ascii_digit(#[trigger] s[i]) by {
            if i < s.len() - 1 {
                assert(s[i] == decimal(n / 10)[i]);
            }
        }
    }
}

/// The decimal representation of a number reads back as that number, as an
/// `i32` when it fits one and as a `usize` when it fits one.
pub proof fn lemma_decimal_reads_back(n: nat)
    ensures
        integer_literal(decimal(n), true) == Some(n as int),
        integer_literal(decimal(n), false) == Some(n as int),
        parse_i32_spec(decimal(n)) == (if n <= i32::MAX {
            Some(n as i32)
        } else {
            None::<i32>
        }),
        parse_usize_spec(decimal(n)) == (if n <= usize::MAX {
            Some(n as usize)
        } else {
            None::<usize>
        }),
{
    lemma_decimal_value(n);
    assert(is_ascii_digit(decimal(n)[0]));
}

/// The digits of `v[from..]`, read as a number but capped at
/// [`magnitude_cap`]; `None` unless they are a non-empty run of digits.
fn digits_magnitude(v: &Vec<char>, from: usize) -> (r: Option<u128>)
    requires
        from <= v@.len(),
    ensures
        r is Some <==> digits_number(v@.skip(from as int)) is Some,
        r matches Some(m) ==> m == min_int(digits_value(v@.skip(from as int)), magnitude_cap()),
{
    if from == v.len() {
        return None;
    }
    let mut acc: u128 = 0;
    let mut i = from;
    while i < v.len()
        invariant
            from <= i <= v@.len(),
            all_digits(v@.subrange(from as int, i as int)),
            acc == min_int(digits_value(v@.subrange(from as int, i as int)), magnitude_cap()),
        decreases v@.len() - i,
    {
        let c = v[i];
        if !('0' <= c && c <= '9') {
            assert(v@.skip(from as int)[i - from] == c);
            return None;
        }
        let d = (c as u32 - '0' as u32) as u128;
        let ghost prev = v@.subrange(from as int, i as int);
        let ghost next = v@.subrange(from as int, i + 1);
        assert(next.drop_last() =~= prev);
        assert(digits_value(next) == digits_value(prev) * 10 + d);
        let cap: u128 = 0x1_0000_0000_0000_0000;
        let t = acc * 10 + d;
        acc = if t <= cap { t } else { cap };
        assert forall|j: int| 0 <= j < next.len() implies is_ascii_digit(#[trigger] next[j]) by {
            if j < prev.len() {
                assert(next[j] == prev[j]);
            }
        }
        i = i + 1;
    }
    assert(v@.subrange(from as int, v@.len() as int) =~= v@.skip(from as int));
    Some(acc)
}

/// Reads `s` as `s.parse::<i32>()` does.
pub fn parse_i32(s: &str) -> (r: Option<i32>)
    ensures
        r == parse_i32_spec(s@),
{
    let v = chars_of(s);
    if v.len() > 0 && v[0] == '+' {
        assert(v@.skip(1) =~= s@.drop_first());
        match digits_magnitude(&v, 1) {
            Some(m) => if m <= 0x7fff_ffff {
                Some(m as i32)
            } else {
                None
            },
            None => None,
        }
    } else if v.len() > 0 && v[0] == '-' {
        assert(v@.skip(1) =~= s@.drop_first());
        match digits_magnitude(&v, 1) {
            Some(m) => if m <= 0x8000_0000 {
                Some((0 - (m as i64)) as i32)
            } else {
                None
            },
            None => None,
        }
    } else {
        assert(v@.skip(0) =~= s@);
        match digits_magnitude(&v, 0) {
            Some(m) => if m <= 0x7fff_ffff {
                Some(m as i32)
            } else {
                None
            },
            None => None,
        }
    }
}

/// Reads `s` as `s.parse::<usize>()` does.
pub fn parse_usize(s: &str) -> (r: Option<usize>)
    ensures
        r == parse_usize_spec(s@),
{
    let v = chars_of(s);
    let start: usize = if v.len() > 0 && v[0] == '+' { 1 } else { 0 };
    if start == 1 {
        assert(v@.skip(1) =~= s@.drop_first());
    } else {
        assert(v@.skip(0) =~= s@);
    }
    match digits_magnitude(&v, start) {
        Some(m) => if m <= usize::MAX as u128 {
            Some(m as usize)
        } else {
            None
        },
        None => None,
    }
}

/// The digit character for `d`.
fn digit_to_char(d: u64) -> (c: char)
    requires
        d < 10,
    ensures
        c == digit_char(d as nat),
{
    let b: u8 = (d as u8) + 48;
    b as char
}

/// Appends the decimal representation of `n` to `s`.
pub fn push_decimal(s: &mut String, n: u64)
    ensures
        final(s)@ == old(s)@ + decimal(n as nat),
    decreases n,
{
    if n >= 10 {
        push_decimal(s, n / 10);
    }
    let c = digit_to_char(n % 10);
    push_char(s, c);
    assert(s@ =~= old(s)@ + decimal(n as nat));
}

/// The decimal representation of `n`, as `n.to_string()` gives it.
pub fn decimal_string(n: u64) -> (r: String)
    ensures
        r@ == decimal(n as nat),
{
    let mut r = String::new();
    push_decimal(&mut r, n);
    assert(r@ =~= decimal(n as nat));
    r
}


/// Signs: a leading `+` is allowed for both integer forms and changes
/// nothing; a leading `-` negates an `i32` and is refused for a `usize`; a
/// text that is neither a sign nor a digit at its start is refused.
pub proof fn lemma_signed_literals(n: nat)
    ensures
        parse_i32_spec(seq!['+'] + decimal(n)) == parse_i32_spec(decimal(n)),
        parse_usize_spec(seq!['+'] + decimal(n)) == parse_usize_spec(decimal(n)),
        n <= 0x8000_0000 ==> parse_i32_spec(seq!['-'] + decimal(n)) == Some((-n) as i32),
        n > 0x8000_0000 ==> parse_i32_spec(seq!['-'] + decimal(n)) is None,
        parse_usize_spec(seq!['-'] + decimal(n)) is None,
        parse_i32_spec(Seq::<char>::empty()) is None,
        parse_usize_spec(Seq::<char>::empty()) is None,
{
    lemma_decimal_reads_back(n);
    lemma_decimal_value(n);
    let d = decimal(n);
    assert((seq!['+'] + d).drop_first() =~= d);
    assert((seq!['-'] + d).drop_first() =~= d);
    assert(d[0] != '+' && d[0] != '-') by {
        assert(is_ascii_digit(d[0]));
    }
}

} // verus!
