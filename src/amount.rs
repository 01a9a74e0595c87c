//! Fixed-point amounts with two implied decimals: the integer `1250` stands
//! for `12.50`. Amounts are shown as text with exactly two fractional digits
//! and read back from what a user typed.
use vstd::prelude::*;

verus! {

/// Whole parts must stay strictly below this bound (and above its negation),
/// so that the amount in hundredths fits in an `i32`.
pub const WHOLE_LIMIT: u32 = 21474836;

/// A text that is not a valid amount.
#[derive(Debug, Clone, Copy, PartialEq, Eq, Structural)]
pub struct ParseFailure;

pub open spec fn is_digit(c: char) -> bool {
    '0' <= c && c <= '9'
}

pub open spec fn digit_value(c: char) -> int {
    c as int - '0' as int
}

pub open spec fn is_separator(c: char) -> bool {
    c == ',' || c == '.'
}

/// The character of the decimal digit `d`.
pub open spec fn digit_char(d: int) -> char {
    if d <= 0 {
        '0'
    } else if d == 1 {
        '1'
    } else if d == 2 {
        '2'
    } else if d == 3 {
        '3'
    } else if d == 4 {
        '4'
    } else if d == 5 {
        '5'
    } else if d == 6 {
        '6'
    } else if d == 7 {
        '7'
    } else if d == 8 {
        '8'
    } else {
        '9'
    }
}

/// The decimal digits of `n`, most significant first, without leading zeros.
pub open spec fn nat_digits(n: nat) -> Seq<char>
    decreases n,
{
    if n < 10 {
        seq![digit_char(n as int)]
    } else {
        nat_digits(n / 10).push(digit_char((n % 10) as int))
    }
}

/// The number that a sequence of digits writes in base ten.
pub open spec fn digits_value(s: Seq<char>) -> int
    decreases s.len(),
{
    if s.len() == 0 {
        0
    } else {
        digits_value(s.drop_last()) * 10 + digit_value(s.last())
    }
}

/// The index of the first non-digit at or after `i`.
pub open spec fn digit_run_end(s: Seq<char>, i: int) -> int
    decreases s.len() - i,
{
    if 0 <= i < s.len() && is_digit(s[i]) {
        digit_run_end(s, i + 1)
    } else {
        i
    }
}

/// Hundredths written by up to two fractional digits.
pub open spec fn fraction_value(f: Seq<char>) -> int {
    if f.len() == 0 {
        0
    } else if f.len() == 1 {
        digit_value(f[0]) * 10
    } else {
        digit_value(f[0]) * 10 + digit_value(f[1])
    }
}

pub open spec fn sign_len(s: Seq<char>) -> int {
    if s.len() > 0 && (s[0] == '-' || s[0] == '+') {
        1
    } else {
        0
    }
}

/// Magnitude in hundredths of what follows the whole digits: nothing, or a
/// separator and at most two digits.
pub open spec fn magnitude_with_rest(whole: int, rest: Seq<char>) -> Option<int> {
    if rest.len() == 0 {
        Some(whole * 100)
    } else if is_separator(rest[0]) && rest.len() <= 3 && (forall|k: int|
        1 <= k < rest.len() ==> is_digit(#[trigger] rest[k])) {
        Some(whole * 100 + fraction_value(rest.drop_first()))
    } else {
        None
    }
}

/// The amount in hundredths that a text denotes: an optional sign followed by
/// at least one digit, or no sign and any number of digits (none reads as 0);
/// then optionally `,` or `.` and at most two fractional digits; nothing after.
/// The whole part must be below `WHOLE_LIMIT`; the sign applies to the whole
/// amount.
pub open spec fn parse_amount(s: Seq<char>) -> Option<int> {
    let start = sign_len(s);
    let end = digit_run_end(s, start);
    let whole = digits_value(s.subrange(start, end));
    let negative = start == 1 && s[0] == '-';
    if start == 1 && end == start {
        None
    } else if whole >= WHOLE_LIMIT {
        None
    } else {
        match magnitude_with_rest(whole, s.subrange(end, s.len() as int)) {
            Some(m) => Some(
                if negative {
                    -m
                } else {
                    m
                },
            ),
            None => None,
        }
    }
}

pub open spec fn abs(v: int) -> int {
    if v < 0 {
        -v
    } else {
        v
    }
}

/// The text of an amount: a minus sign when negative, the whole part, `.`,
/// and exactly two fractional digits.
pub open spec fn format_amount(v: int) -> Seq<char> {
    format_amount_with(v, '.')
}

/// The text of an amount with `sep` as the decimal separator.
pub open spec fn format_amount_with(v: int, sep: char) -> Seq<char> {
    let a = abs(v);
    let f = a % 100;
    let sign = if v < 0 {
        seq!['-']
    } else {
        Seq::<char>::empty()
    };
    sign + nat_digits((a / 100) as nat) + seq![sep, digit_char(f / 10), digit_char(f % 10)]
}

/// Amounts whose text can be read back.
pub open spec fn amount_in_range(v: int) -> bool {
    -(WHOLE_LIMIT as int) * 100 < v < (WHOLE_LIMIT as int) * 100
}

proof fn lemma_digit_char(d: int)
    requires
        0 <= d < 10,
    ensures
        is_digit(digit_char(d)),
        digit_value(digit_char(d)) == d,
{
}

proof fn lemma_nat_digits(n: nat)
    ensures
        nat_digits(n).len() >= 1,
        forall|k: int| 0 <= k < nat_digits(n).len() ==> is_digit(#[trigger] nat_digits(n)[k]),
        digits_value(nat_digits(n)) == n,
    decreases n,
{
    if n < 10 {
        lemma_digit_char(n as int);
        assert(nat_digits(n).drop_last() =~= Seq::<char>::empty());
        assert(digits_value(nat_digits(n).drop_last()) == 0);
    } else {
        lemma_nat_digits(n / 10);
        lemma_digit_char((n % 10) as int);
        assert(nat_digits(n).drop_last() =~= nat_digits(n / 10));
        assert(nat_digits(n).last() == digit_char((n % 10) as int));
        assert(digits_value(nat_digits(n)) == digits_value(nat_digits(n / 10)) * 10 + (n % 10));
        assert((n / 10) * 10 + n % 10 == n);
    }
}

proof fn lemma_digit_run_end(s: Seq<char>, a: int, b: int)
    requires
        0 <= a <= b <= s.len(),
        forall|k: int| a <= k < b ==> is_digit(#[trigger] s[k]),
        b == s.len() || !is_digit(s[b]),
    ensures
        digit_run_end(s, a) == b,
    decreases b - a,
{
    if a < b {
        lemma_digit_run_end(s, a + 1, b);
    }
}

/// Reading the text of an amount gives the amount back, for every amount
/// whose whole part is below the limit and either decimal separator.
pub proof fn lemma_parse_format(v: int, sep: char)
    requires
        amount_in_range(v),
        is_separator(sep),
    ensures
        parse_amount(format_amount_with(v, sep)) == Some(v),
{
    let a = abs(v);
    let w = a / 100;
    let f = a % 100;
    let d = nat_digits(w as nat);
    lemma_nat_digits(w as nat);
    lemma_digit_char(f / 10);
    lemma_digit_char(f % 10);
    let tail = seq![sep, digit_char(f / 10), digit_char(f % 10)];
    let pre = if v < 0 {
        seq!['-']
    } else {
        Seq::<char>::empty()
    };
    let s = format_amount_with(v, sep);
    assert(s == pre + d + tail);
    let start = pre.len() as int;
    let end = start + d.len();
    assert(sign_len(s) == start) by {
        if v >= 0 {
            assert(s[0] == d[0]);
        }
    }
    assert forall|k: int| start <= k < end implies is_digit(#[trigger] s[k]) by {
        assert(s[k] == d[k - start]);
    }
    assert(s[end] == sep);
    lemma_digit_run_end(s, start, end);
    assert(s.subrange(start, end) =~= d);
    let rest = s.subrange(end, s.len() as int);
    assert(rest =~= tail);
    assert(rest.drop_first() =~= seq![digit_char(f / 10), digit_char(f % 10)]);
    assert(fraction_value(rest.drop_first()) == f);
    assert(w < WHOLE_LIMIT);
    assert(w * 100 + f == a);
}

/// Relies on `String::push`: appends one character.
#[verifier::external_body]
pub(crate) fn push_char(s: &mut String, c: char)
    ensures
        final(s)@ == old(s)@.push(c),
{
    s.push(c)
}

fn digit_of(c: char) -> (r: u32)
    requires
        is_digit(c),
    ensures
        r as int == digit_value(c),
{
    (c as u32) - ('0' as u32)
}

fn char_of_digit(d: u32) -> (c: char)
    requires
        d < 10,
    ensures
        c == digit_char(d as int),
{
    match d {
        0 => '0',
        1 => '1',
        2 => '2',
        3 => '3',
        4 => '4',
        5 => '5',
        6 => '6',
        7 => '7',
        8 => '8',
        _ => '9',
    }
}

fn push_digits(s: &mut String, n: u32)
    ensures
        final(s)@ == old(s)@ + nat_digits(n as nat),
    decreases n,
{
    if n >= 10 {
        push_digits(s, n / 10);
    }
    push_char(s, char_of_digit(n % 10));
    assert(s@ =~= old(s)@ + nat_digits(n as nat));
}

/// Renders `value / 100` with exactly two fractional digits and `.` as the
/// separator: `1250` becomes `12.50`, `-5` becomes `-0.05`.
pub fn format_value(value: i32) -> (r: String)
    ensures
        r@ == format_amount(value as int),
{
    format_value_with(value, '.')
}

/// Renders `value / 100` with exactly two fractional digits and
/// `decimal_sep` between the whole and the fractional part.
pub fn format_value_with(value: i32, decimal_sep: char) -> (r: String)
    ensures
        r@ == format_amount_with(value as int, decimal_sep),
{
    let a: u32 = if value < 0 {
        (-(value as i64)) as u32
    } else {
        value as u32
    };
    assert(a as int == abs(value as int));
    let mut s = String::new();
    if value < 0 {
        push_char(&mut s, '-');
    }
    push_digits(&mut s, a / 100);
    push_char(&mut s, decimal_sep);
    push_char(&mut s, char_of_digit((a % 100) / 10));
    push_char(&mut s, char_of_digit((a % 100) % 10));
    assert(s@ =~= format_amount_with(value as int, decimal_sep));
    s
}

/// Reads an amount in hundredths from text such as `12.50`, `3`, `1,5` or
/// the empty text.
pub fn parse_value(s: &str) -> (r: Result<i32, ParseFailure>)
    ensures
        match r {
            Ok(v) => parse_amount(s@) == Some(v as int),
            Err(_) => parse_amount(s@) is None,
        },
{
    let n = s.unicode_len();
    let mut i: usize = 0;
    let mut negative = false;
    if n > 0 {
        let c = s.get_char(0);
        if c == '-' || c == '+' {
            negative = c == '-';
            i = 1;
        }
    }
    let start = i;
    assert(start as int == sign_len(s@));
    let mut whole: u32 = 0;
    loop
        invariant
            start <= i <= n,
            n == s@.len(),
            start as int == sign_len(s@),
            forall|k: int| start <= k < i ==> is_digit(#[trigger] s@[k]),
            whole as int == if digits_value(s@.subrange(start as int, i as int)) < WHOLE_LIMIT {
                digits_value(s@.subrange(start as int, i as int))
            } else {
                WHOLE_LIMIT as int
            },
        ensures
            start <= i <= n,
            forall|k: int| start <= k < i ==> is_digit(#[trigger] s@[k]),
            i == n || !is_digit(s@[i as int]),
            whole as int == if digits_value(s@.subrange(start as int, i as int)) < WHOLE_LIMIT {
                digits_value(s@.subrange(start as int, i as int))
            } else {
                WHOLE_LIMIT as int
            },
        decreases n - i,
    {
        if i == n {
            break;
        }
        let c = s.get_char(i);
        if !('0' <= c && c <= '9') {
            break;
        }
        assert(s@.subrange(start as int, i + 1).drop_last() =~= s@.subrange(start as int, i as int));
        let next = whole * 10 + digit_of(c);
        whole = if next < WHOLE_LIMIT {
            next
        } else {
            WHOLE_LIMIT
        };
        i = i + 1;
    }
    proof {
        lemma_digit_run_end(s@, start as int, i as int);
    }
    let end = i;
    if start == 1 && end == start {
        return Err(ParseFailure);
    }
    if whole >= WHOLE_LIMIT {
        return Err(ParseFailure);
    }
    let ghost rest = s@.subrange(end as int, n as int);
    let mut magnitude: i32 = (whole as i32) * 100;
    if end < n {
        let sep = s.get_char(end);
        if !(sep == ',' || sep == '.') || n - end > 3 {
            return Err(ParseFailure);
        }
        let mut k: usize = end + 1;
        let mut fraction: i32 = 0;
        while k < n
            invariant
                end + 1 <= k <= n,
                n - end <= 3,
                n == s@.len(),
                rest == s@.subrange(end as int, n as int),
                start as int == sign_len(s@),
                end as int == digit_run_end(s@, start as int),
                !(start == 1 && end == start),
                whole as int == digits_value(s@.subrange(start as int, end as int)),
                whole < WHOLE_LIMIT,
                forall|j: int| end + 1 <= j < k ==> is_digit(#[trigger] s@[j]),
                fraction == if k == end + 1 {
                    0
                } else if k == end + 2 {
                    digit_value(s@[end + 1]) * 10
                } else {
                    digit_value(s@[end + 1]) * 10 + digit_value(s@[end + 2])
                },
            decreases n - k,
        {
            let c = s.get_char(k);
            if !('0' <= c && c <= '9') {
                assert(rest[k - end] == c);
                return Err(ParseFailure);
            }
            let d = digit_of(c) as i32;
            if k == end + 1 {
                fraction = d * 10;
            } else {
                fraction = fraction + d;
            }
            k = k + 1;
        }
        assert forall|j: int| 1 <= j < rest.len() implies is_digit(#[trigger] rest[j]) by {
            assert(rest[j] == s@[end + j]);
        }
        assert(rest.drop_first().len() == n - end - 1);
        assert(fraction_value(rest.drop_first()) == fraction) by {
            if n - end >= 2 {
                assert(rest.drop_first()[0] == s@[end + 1]);
            }
            if n - end == 3 {
                assert(rest.drop_first()[1] == s@[end + 2]);
            }
        }
        magnitude = magnitude + fraction;
    } else {
        assert(rest.len() == 0);
    }
    if negative {
        Ok(-magnitude)
    } else {
        Ok(magnitude)
    }
}

} // verus!
