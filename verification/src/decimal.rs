//! Decimal numerals: the text form of integers, read and written one character
//! at a time.
//!
//! The grammar is the one of the standard integer parsers: an optional sign
//! (`+` always, `-` only for signed targets) followed by at least one ASCII
//! digit, with nothing before or after, and a value that fits the target type.
use vstd::prelude::*;
use vstd::string::StringExecFns;

verus! {

/// Whether `c` is one of the ten ASCII digits.
pub open spec fn is_digit(c: char) -> bool {
    '0' <= c && c <= '9'
}

/// The number a digit stands for.
pub open spec fn digit_of(c: char) -> nat {
    (c as int - '0' as int) as nat
}

/// The digit that stands for `d`, for `d` below ten.
pub open spec fn digit_char(d: nat) -> char {
    ('0' as int + d as int) as char
}

/// Whether every character of `s` is a digit.
pub open spec fn all_digits(s: Seq<char>) -> bool {
    forall|i: int| 0 <= i < s.len() ==> is_digit(#[trigger] s[i])
}

/// The value of a run of digits read in base ten; zero for the empty run.
pub open spec fn digits_value(s: Seq<char>) -> nat
    decreases s.len(),
{
    if s.len() == 0 {
        0
    } else {
        digits_value(s.drop_last()) * 10 + digit_of(s.last())
    }
}

/// How many characters the sign takes at the front of `s`: one for `+`, one
/// for `-` where the target is signed, none otherwise.
pub open spec fn sign_len(s: Seq<char>, signed: bool) -> int {
    if s.len() > 0 && (s[0] == '+' || (signed && s[0] == '-')) {
        1
    } else {
        0
    }
}

/// The sign and magnitude that `s` denotes: `None` unless `s` is an optional
/// sign followed by one or more digits whose value fits in 64 bits. The flag
/// is true when the sign is `-`.
pub open spec fn magnitude(s: Seq<char>, signed: bool) -> Option<(bool, u64)> {
    let body = s.skip(sign_len(s, signed));
    if body.len() > 0 && all_digits(body) && digits_value(body) <= u64::MAX {
        Some((sign_len(s, signed) == 1 && s[0] == '-', digits_value(body) as u64))
    } else {
        None
    }
}

/// The `u64` that `s` denotes, if any.
pub open spec fn parsed_u64(s: Seq<char>) -> Option<u64> {
    match magnitude(s, false) {
        Some((_, n)) => Some(n),
        None => None,
    }
}

/// The `i64` that `s` denotes, if any.
pub open spec fn parsed_i64(s: Seq<char>) -> Option<i64> {
    match magnitude(s, true) {
        Some((negative, n)) => {
            if negative {
                if n <= 0x8000_0000_0000_0000 {
                    Some((-(n as int)) as i64)
                } else {
                    None
                }
            } else {
                if n <= i64::MAX {
                    Some(n as i64)
                } else {
                    None
                }
            }
        },
        None => None,
    }
}

/// The shortest decimal numeral for `n`: no sign, no leading zero but for
/// zero itself.
pub open spec fn decimal_digits(n: nat) -> Seq<char>
    decreases n,
{
    if n < 10 {
        seq![digit_char(n)]
    } else {
        decimal_digits(n / 10).push(digit_char(n % 10))
    }
}

/// One more digit at the end multiplies the value by ten and adds the digit.
pub proof fn lemma_digits_value_push(s: Seq<char>, c: char)
    ensures
        digits_value(s.push(c)) == digits_value(s) * 10 + digit_of(c),
{
    assert(s.push(c).drop_last() =~= s);
}

/// A run of digits is worth at least as much as any of its prefixes.
pub proof fn lemma_digits_value_prefix(s: Seq<char>, k: int)
    requires
        0 <= k <= s.len(),
    ensures
        digits_value(s.take(k)) <= digits_value(s),
    decreases s.len(),
{
    if k == s.len() {
        assert(s.take(k) =~= s);
    } else {
        lemma_digits_value_prefix(s.drop_last(), k);
        assert(s.drop_last().take(k) =~= s.take(k));
    }
}

/// The numeral written for `n` is made of digits, and reads back as `n`.
pub proof fn lemma_decimal_digits(n: nat)
    ensures
        decimal_digits(n).len() > 0,
        all_digits(decimal_digits(n)),
        digits_value(decimal_digits(n)) == n,
    decreases n,
{
    if n < 10 {
        let s = seq![digit_char(n)];
        assert(digits_value(s.drop_last()) == 0);
    } else {
        lemma_decimal_digits(n / 10);
        lemma_digits_value_push(decimal_digits(n / 10), digit_char(n % 10));
    }
}

/// Writing a `u64` and reading the text back gives the same number.
pub proof fn lemma_u64_round_trip(n: u64)
    ensures
        parsed_u64(decimal_digits(n as nat)) == Some(n),
{
    lemma_decimal_digits(n as nat);
    let s = decimal_digits(n as nat);
    assert(s.skip(0) =~= s);
}

/// Writing a non-negative `i64` and reading the text back gives the same
/// number.
pub proof fn lemma_i64_round_trip(n: i64)
    requires
        n >= 0,
    ensures
        parsed_i64(decimal_digits(n as nat)) == Some(n),
{
    lemma_decimal_digits(n as nat);
    let s = decimal_digits(n as nat);
    assert(s.skip(0) =~= s);
}

/// Reads the sign and the digits of `s` in one pass.
fn parse_magnitude(s: &str, signed: bool) -> (r: Option<(bool, u64)>)
    ensures
        r == magnitude(s@, signed),
{
    let mut negative = false;
    let mut at_start = true;
    let mut seen_digit = false;
    let mut acc: u64 = 0;
    let ghost mut start: int = 0;
    for c in it: s.chars()
        invariant
            it.seq() == s@,
            at_start == (it.index() == 0),
            seen_digit == (start < it.index()),
            0 <= start <= it.index(),
            it.index() == 0 ==> start == 0,
            it.index() > 0 ==> start == sign_len(s@, signed),
            negative == (start == 1 && s@[0] == '-'),
            all_digits(s@.subrange(start, it.index() as int)),
            acc == digits_value(s@.subrange(start, it.index() as int)),
    {
        let ghost i: int = it.index() as int;
        if at_start && (c == '+' || (signed && c == '-')) {
            negative = c == '-';
            proof {
                start = 1;
            }
        } else if '0' <= c && c <= '9' {
            let d: u64 = (c as u32 - '0' as u32) as u64;
            proof {
                let body = s@.skip(sign_len(s@, signed));
                lemma_digits_value_push(s@.subrange(start, i), c);
                assert(s@.subrange(start, i).push(c) =~= s@.subrange(start, i + 1));
                assert(body.take(i + 1 - start) =~= s@.subrange(start, i + 1));
                if all_digits(body) {
                    lemma_digits_value_prefix(body, i + 1 - start);
                }
            }
            match acc.checked_mul(10) {
                Some(shifted) => match shifted.checked_add(d) {
                    Some(next) => {
                        acc = next;
                    },
                    None => {
                        return None;
                    },
                },
                None => {
                    return None;
                },
            }
            seen_digit = true;
        } else {
            proof {
                let body = s@.skip(sign_len(s@, signed));
                assert(body[i - sign_len(s@, signed)] == c);
            }
            return None;
        }
        at_start = false;
    }
    if seen_digit {
        Some((negative, acc))
    } else {
        None
    }
}

/// Reads a `u64` from its decimal text.
pub fn parse_u64(s: &str) -> (r: Option<u64>)
    ensures
        r == parsed_u64(s@),
{
    match parse_magnitude(s, false) {
        Some((_, n)) => Some(n),
        None => None,
    }
}

/// Reads an `i64` from its decimal text.
pub fn parse_i64(s: &str) -> (r: Option<i64>)
    ensures
        r == parsed_i64(s@),
{
    match parse_magnitude(s, true) {
        Some((negative, n)) => {
            if negative {
                if n < 0x8000_0000_0000_0000 {
                    Some(-(n as i64))
                } else if n == 0x8000_0000_0000_0000 {
                    Some(i64::MIN)
                } else {
                    None
                }
            } else if n <= 0x7fff_ffff_ffff_ffff {
                Some(n as i64)
            } else {
                None
            }
        },
        None => None,
    }
}

/// The one-character text of a digit.
fn digit_text(d: u64) -> (r: &'static str)
    requires
        d < 10,
    ensures
        r@ == seq![digit_char(d as nat)],
{
    proof {
        reveal_strlit("0");
        reveal_strlit("1");
        reveal_strlit("2");
        reveal_strlit("3");
        reveal_strlit("4");
        reveal_strlit("5");
        reveal_strlit("6");
        reveal_strlit("7");
        reveal_strlit("8");
        reveal_strlit("9");
    }
    let r = if d == 0 {
        "0"
    } else if d == 1 {
        "1"
    } else if d == 2 {
        "2"
    } else if d == 3 {
        "3"
    } else if d == 4 {
        "4"
    } else if d == 5 {
        "5"
    } else if d == 6 {
        "6"
    } else if d == 7 {
        "7"
    } else if d == 8 {
        "8"
    } else {
        "9"
    };
    r
}

/// Appends the decimal numeral of `n` to `out`.
pub fn push_decimal(out: &mut String, n: u64)
    ensures
        final(out)@ == old(out)@ + decimal_digits(n as nat),
    decreases n,
{
    if n >= 10 {
        push_decimal(out, n / 10);
    }
    out.append(digit_text(n % 10));
}

/// The decimal numeral of `n` as a string.
pub fn decimal_text(n: u64) -> (r: String)
    ensures
        r@ == decimal_digits(n as nat),
{
    let mut out = String::new();
    push_decimal(&mut out, n);
    out
}

} // verus!
