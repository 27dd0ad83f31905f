//! Decimal text of integers: how they are shown and how they are read.

use vstd::prelude::*;

verus! {

/// The character of a decimal digit `0..=9`.
pub open spec fn digit_char(d: int) -> char {
    if d == 0 { '0' }
    else if d == 1 { '1' }
    else if d == 2 { '2' }
    else if d == 3 { '3' }
    else if d == 4 { '4' }
    else if d == 5 { '5' }
    else if d == 6 { '6' }
    else if d == 7 { '7' }
    else if d == 8 { '8' }
    else { '9' }
}

/// The decimal digits of a natural number, without leading zeros.
pub open spec fn nat_text(n: nat) -> Seq<char>
    decreases n,
{
    if n < 10 {
        seq![digit_char(n as int)]
    } else {
        nat_text(n / 10) + seq![digit_char((n % 10) as int)]
    }
}

/// The decimal text of an integer, with a `-` in front when it is negative.
pub open spec fn int_text(n: int) -> Seq<char> {
    if n < 0 {
        seq!['-'] + nat_text((-n) as nat)
    } else {
        nat_text(n as nat)
    }
}

/// `s` with `0`s in front until it is at least `width` characters long.
pub open spec fn zero_pad(s: Seq<char>, width: nat) -> Seq<char>
    decreases width - s.len(),
{
    if s.len() >= width {
        s
    } else {
        zero_pad(seq!['0'] + s, width)
    }
}

/// A natural number written with at least `width` digits.
pub open spec fn padded(n: nat, width: nat) -> Seq<char> {
    zero_pad(nat_text(n), width)
}

pub open spec fn is_digit(c: char) -> bool {
    '0' <= c && c <= '9'
}

pub open spec fn all_digits(s: Seq<char>) -> bool {
    forall|i: int| 0 <= i < s.len() ==> #[trigger] is_digit(s[i])
}

/// The value of a string of decimal digits.
pub open spec fn digits_value(s: Seq<char>) -> nat
    decreases s.len(),
{
    if s.len() == 0 {
        0
    } else {
        digits_value(s.drop_last()) * 10 + ((s.last() as nat) - ('0' as nat)) as nat
    }
}

/// The integer that `s` spells: an optional `+` or `-` followed by at least
/// one decimal digit, and nothing else.
pub open spec fn integer_literal(s: Seq<char>) -> Option<int> {
    if s.len() > 0 && (s[0] == '-' || s[0] == '+') {
        let rest = s.skip(1);
        if rest.len() > 0 && all_digits(rest) {
            if s[0] == '-' {
                Some(-(digits_value(rest) as int))
            } else {
                Some(digits_value(rest) as int)
            }
        } else {
            None
        }
    } else if s.len() > 0 && all_digits(s) {
        Some(digits_value(s) as int)
    } else {
        None
    }
}

/// What reading `s` as an integer between `lo` and `hi` gives.
pub open spec fn integer_in(s: Seq<char>, lo: int, hi: int) -> Option<int> {
    match integer_literal(s) {
        Some(v) => if lo <= v <= hi { Some(v) } else { None },
        None => None,
    }
}

/// The one-character text of a decimal digit.
fn digit_text(d: u32) -> (r: &'static str)
    requires
        d < 10,
    ensures
        r@ == seq![digit_char(d as int)],
{
    proof {
        reveal_strlit("0");
        reveal_strlit("1");
        reveal_strlit("2");
        reveal_strlit("3");
        reveal_strlit("4");
        reveal_strlit("5");
        reveal_strlit("6");
        reveal_strlit("7");
        reveal_strlit("8");
        reveal_strlit("9");
    }
    match d {
        0 => "0",
        1 => "1",
        2 => "2",
        3 => "3",
        4 => "4",
        5 => "5",
        6 => "6",
        7 => "7",
        8 => "8",
        _ => "9",
    }
}

/// Appends the decimal digits of `n` to `out`.
fn append_nat_text(n: u32, out: &mut String)
    ensures
        final(out)@ == old(out)@ + nat_text(n as nat),
    decreases n,
{
    if n >= 10 {
        append_nat_text(n / 10, out);
    }
    out.append(digit_text(n % 10));
    proof {
        assert(final(out)@ =~= old(out)@ + nat_text(n as nat));
    }
}

/// The decimal text of `n`, as `i32`'s `Display` writes it.
pub(crate) fn i32_text(n: i32) -> (r: String)
    ensures
        r@ == int_text(n as int),
{
    let mut r = String::new();
    if n < 0 {
        r.append("-");
        let m: u32 = (0i64 - n as i64) as u32;
        append_nat_text(m, &mut r);
        proof {
            reveal_strlit("-");
            assert(r@ =~= int_text(n as int));
        }
    } else {
        append_nat_text(n as u32, &mut r);
        proof {
            assert(r@ =~= int_text(n as int));
        }
    }
    r
}

/// The decimal text of `n`, as `i8`'s `Display` writes it.
pub(crate) fn i8_text(n: i8) -> (r: String)
    ensures
        r@ == int_text(n as int),
{
    i32_text(n as i32)
}

/// Past this, a run of digits is out of the range of every reader here.
const DIGITS_LIMIT: i64 = 1099511627776;

/// Reads `s` as an integer between `lo` and `hi`, as `str::parse` reads the
/// integer types: an optional sign and decimal digits, nothing else.
fn read_integer(s: &str, lo: i64, hi: i64) -> (r: Option<i64>)
    requires
        -DIGITS_LIMIT <= lo <= hi <= DIGITS_LIMIT,
    ensures
        r == (match integer_in(s@, lo as int, hi as int) {
            Some(v) => Some(v as i64),
            None => None::<i64>,
        }),
{
    let n = s.unicode_len();
    if n == 0 {
        return None;
    }
    let first = s.get_char(0);
    let negative = first == '-';
    let start: usize = if first == '-' || first == '+' { 1 } else { 0 };
    if start == n {
        return None;
    }
    let mut value: i64 = 0;
    let mut big = false;
    let mut i: usize = start;
    proof {
        assert(s@.subrange(start as int, start as int) =~= Seq::<char>::empty());
    }
    while i < n
        invariant
            start <= i <= n,
            n == s@.len(),
            start == 0 || start == 1,
            start == 1 <==> (s@[0] == '-' || s@[0] == '+'),
            negative <==> s@[0] == '-',
            all_digits(s@.subrange(start as int, i as int)),
            big ==> digits_value(s@.subrange(start as int, i as int)) > DIGITS_LIMIT,
            !big ==> value == digits_value(s@.subrange(start as int, i as int)) && 0 <= value <= DIGITS_LIMIT,
        decreases n - i,
    {
        let c = s.get_char(i);
        if !('0' <= c && c <= '9') {
            proof {
                let rest = s@.subrange(start as int, n as int);
                assert(rest[i - start] == c);
                assert(!is_digit(rest[i - start]));
                assert(!all_digits(rest));
                if start == 1 {
                    assert(s@.skip(1) =~= rest);
                } else {
                    assert(s@ =~= rest);
                }
            }
            return None;
        }
        proof {
            let before = s@.subrange(start as int, i as int);
            let after = s@.subrange(start as int, i + 1);
            assert(after.drop_last() =~= before);
            assert(after.last() == c);
            assert(all_digits(after)) by {
                assert forall|k: int| 0 <= k < after.len() implies #[trigger] is_digit(after[k]) by {
                    if k < before.len() {
                        assert(after[k] == before[k]);
                    }
                }
            }
        }
        if !big {
            value = value * 10 + (c as u32 - '0' as u32) as i64;
            if value > DIGITS_LIMIT {
                big = true;
            }
        }
        i = i + 1;
    }
    proof {
        let rest = s@.subrange(start as int, n as int);
        if start == 1 {
            assert(s@.skip(1) =~= rest);
        } else {
            assert(s@ =~= rest);
        }
    }
    if big {
        return None;
    }
    let v: i64 = if negative { -value } else { value };
    if lo <= v && v <= hi {
        Some(v)
    } else {
        None
    }
}

/// Reads `s` as an `i8`, as `str::parse::<i8>` does.
pub(crate) fn read_i8(s: &str) -> (r: Option<i8>)
    ensures
        r == (match integer_in(s@, -128, 127) {
            Some(v) => Some(v as i8),
            None => None::<i8>,
        }),
{
    match read_integer(s, -128, 127) {
        Some(v) => Some(v as i8),
        None => None,
    }
}

/// Reads `s` as an `i32`, as `str::parse::<i32>` does.
pub(crate) fn read_i32(s: &str) -> (r: Option<i32>)
    ensures
        r == (match integer_in(s@, i32::MIN as int, i32::MAX as int) {
            Some(v) => Some(v as i32),
            None => None::<i32>,
        }),
{
    match read_integer(s, i32::MIN as i64, i32::MAX as i64) {
        Some(v) => Some(v as i32),
        None => None,
    }
}

} // verus!
