//! Decimal text of signed integers, as bytes.

use vstd::prelude::*;

verus! {

/// The byte `-`.
pub const MINUS: u8 = 45;

/// The byte `+`.
pub const PLUS: u8 = 43;

/// The byte `0`.
pub const ZERO: u8 = 48;

/// The byte `9`.
pub const NINE: u8 = 57;

/// The byte that shows the digit `d`.
pub open spec fn digit_byte(d: nat) -> u8 {
    (48 + d) as u8
}

/// `b` shows a digit.
pub open spec fn is_digit(b: u8) -> bool {
    48 <= b <= 57
}

/// The digit that `b` shows; 0 for a byte that shows none.
pub open spec fn digit_of(b: u8) -> nat {
    if is_digit(b) {
        (b - 48) as nat
    } else {
        0
    }
}

/// The digits of `n`, most significant first, without leading zeros.
pub open spec fn digits(n: nat) -> Seq<u8>
    decreases n,
{
    if n < 10 {
        seq![digit_byte(n)]
    } else {
        digits(n / 10).push(digit_byte(n % 10))
    }
}

/// The decimal text of `v`: a minus sign for a negative number, then the
/// digits of its magnitude.
pub open spec fn decimal(v: int) -> Seq<u8> {
    if v < 0 {
        seq![MINUS] + digits((-v) as nat)
    } else {
        digits(v as nat)
    }
}

/// Every byte of `s` shows a digit.
pub open spec fn all_digits(s: Seq<u8>) -> bool {
    forall|i: int| 0 <= i < s.len() ==> is_digit(#[trigger] s[i])
}

/// The number that the digits `s` show, most significant first.
pub open spec fn digits_value(s: Seq<u8>) -> nat
    decreases s.len(),
{
    if s.len() == 0 {
        0
    } else {
        digits_value(s.drop_last()) * 10 + digit_of(s.last())
    }
}

/// The digits of `s`: what follows its sign, or all of it where it has none.
pub open spec fn unsigned_part(s: Seq<u8>) -> Seq<u8> {
    if s.len() > 0 && (s[0] == MINUS || s[0] == PLUS) {
        s.skip(1)
    } else {
        s
    }
}

/// The number that `s` shows: an optional sign, `-` or `+`, then one or more
/// digits. `None` where `s` has another shape or the number does not fit
/// in 64 bits.
pub open spec fn parsed_decimal(s: Seq<u8>) -> Option<i64> {
    let d = unsigned_part(s);
    if d.len() == 0 || !all_digits(d) {
        None
    } else if s[0] == MINUS {
        if digits_value(d) <= 0x8000_0000_0000_0000 {
            Some((-digits_value(d)) as i64)
        } else {
            None
        }
    } else if digits_value(d) <= i64::MAX {
        Some(digits_value(d) as i64)
    } else {
        None
    }
}

fn push_digits(out: &mut Vec<u8>, n: u64)
    ensures
        final(out)@ == old(out)@ + digits(n as nat),
    decreases n,
{
    if n >= 10 {
        push_digits(out, n / 10);
    }
    let d: u8 = (n % 10) as u8;
    out.push(ZERO + d);
    assert(final(out)@ =~= old(out)@ + digits(n as nat));
}

/// Writes `v` in decimal.
pub fn render_decimal(v: i64) -> (out: Vec<u8>)
    ensures
        out@ == decimal(v as int),
{
    let mut out: Vec<u8> = Vec::new();
    if v < 0 {
        out.push(MINUS);
        let magnitude: u64 = ((-(v + 1)) as u64) + 1;
        push_digits(&mut out, magnitude);
        assert(out@ =~= decimal(v as int));
    } else {
        push_digits(&mut out, v as u64);
        assert(out@ =~= decimal(v as int));
    }
    out
}

/// A longer run of digits shows no smaller number than any of its starts.
proof fn value_grows(s: Seq<u8>, k: int)
    requires
        0 <= k <= s.len(),
    ensures
        digits_value(s.take(k)) <= digits_value(s),
    decreases s.len() - k,
{
    if k == s.len() {
        assert(s.take(k) =~= s);
    } else {
        value_grows(s.drop_last(), k);
        assert(s.drop_last().take(k) =~= s.take(k));
    }
}

/// Reads a decimal number: an optional sign, `-` or `+`, then one or more
/// digits.
pub fn parse_decimal(s: &Vec<u8>) -> (r: Option<i64>)
    ensures
        r == parsed_decimal(s@),
{
    let n: usize = s.len();
    if n == 0 {
        return None;
    }
    let negative: bool = s[0] == MINUS;
    let start: usize = if negative || s[0] == PLUS { 1 } else { 0 };
    if start == n {
        return None;
    }
    let limit: u64 = if negative { 0x8000_0000_0000_0000 } else { 0x7fff_ffff_ffff_ffff };
    let ghost body: Seq<u8> = unsigned_part(s@);
    assert(body =~= s@.skip(start as int));
    let mut acc: u64 = 0;
    let mut i: usize = start;
    while i < n
        invariant
            start <= i <= n,
            n == s.len(),
            n > 0,
            negative == (s@[0] == MINUS),
            limit == if negative { 0x8000_0000_0000_0000u64 } else { 0x7fff_ffff_ffff_ffffu64 },
            body == unsigned_part(s@),
            body =~= s@.skip(start as int),
            all_digits(body.take(i - start)),
            acc == digits_value(body.take(i - start)),
            acc <= limit,
        decreases n - i,
    {
        let b: u8 = s[i];
        if b < ZERO || b > NINE {
            assert(!is_digit(body[i - start]));
            return None;
        }
        let next: u128 = acc as u128 * 10 + (b - ZERO) as u128;
        proof {
            assert(body.take(i - start + 1).drop_last() =~= body.take(i - start));
            assert(body.take(i - start + 1).last() == b);
        }
        if next > limit as u128 {
            proof {
                value_grows(body, i - start + 1);
            }
            return None;
        }
        acc = next as u64;
        i = i + 1;
    }
    assert(body.take(n - start) =~= body);
    if negative {
        if acc == 0x8000_0000_0000_0000 {
            Some(i64::MIN)
        } else {
            Some(-(acc as i64))
        }
    } else {
        Some(acc as i64)
    }
}

/// The digits of a number are digits, at least one, and show that number.
pub proof fn digits_show_number(n: nat)
    ensures
        digits(n).len() > 0,
        all_digits(digits(n)),
        digits_value(digits(n)) == n,
    decreases n,
{
    if n < 10 {
        assert(digits(n).drop_last() =~= Seq::<u8>::empty());
        assert(digits_value(digits(n).drop_last()) == 0);
    } else {
        digits_show_number(n / 10);
        assert(digits(n).drop_last() =~= digits(n / 10));
    }
}

/// Reading what was written gives the number back, for every 64-bit
/// integer.
pub proof fn decimal_round_trip(v: i64)
    ensures
        parsed_decimal(decimal(v as int)) == Some(v),
{
    if v < 0 {
        digits_show_number((-v) as nat);
        assert(decimal(v as int).skip(1) =~= digits((-v) as nat));
    } else {
        digits_show_number(v as nat);
        assert(is_digit(digits(v as nat)[0]));
    }
}

} // verus!
