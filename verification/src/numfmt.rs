//! Decimal rendering of integers and of exact rationals.
//!
//! All readable strings of the library are produced here with exact integer
//! arithmetic: an unsigned or signed integer in decimal, a rational rounded
//! to a fixed number of decimal places (ties rounded to the even digit, as
//! IEEE printing does for representable halves), and a rational expanded to
//! its exact decimal value, cut off after a bounded number of digits when
//! the expansion does not terminate (see `spec_uratio`).  A rational with
//! denominator zero renders as `inf`, `-inf` or `NaN`, mirroring the IEEE
//! quotient it stands for.

use vstd::prelude::*;
use vstd::string::*;

verus! {

/// The decimal digit character for `d` (only the last digit of `d` matters).
pub open spec fn spec_digit(d: nat) -> char {
    if d % 10 == 0 {
        '0'
    } else if d % 10 == 1 {
        '1'
    } else if d % 10 == 2 {
        '2'
    } else if d % 10 == 3 {
        '3'
    } else if d % 10 == 4 {
        '4'
    } else if d % 10 == 5 {
        '5'
    } else if d % 10 == 6 {
        '6'
    } else if d % 10 == 7 {
        '7'
    } else if d % 10 == 8 {
        '8'
    } else {
        '9'
    }
}

/// The decimal digits of `n`, most significant first, without a sign.
pub open spec fn spec_udec(n: nat) -> Seq<char>
    decreases n,
{
    if n < 10 {
        seq![spec_digit(n)]
    } else {
        spec_udec(n / 10).push(spec_digit(n % 10))
    }
}

/// The decimal digits of `i`, with a leading `-` when negative.
pub open spec fn spec_idec(i: int) -> Seq<char> {
    if i < 0 {
        seq!['-'] + spec_udec((-i) as nat)
    } else {
        spec_udec(i as nat)
    }
}

/// Exactly `width` digits: the last `width` decimal digits of `n`,
/// zero-padded on the left.
pub open spec fn spec_pad_digits(n: nat, width: nat) -> Seq<char>
    decreases width,
{
    if width == 0 {
        Seq::empty()
    } else {
        spec_pad_digits(n / 10, (width - 1) as nat).push(spec_digit(n % 10))
    }
}

/// `num / den` rounded to the nearest integer, ties to the even one.
pub open spec fn spec_round_half_even(num: nat, den: nat) -> nat
    recommends
        den > 0,
{
    let q: nat = num / den;
    let r: nat = num % den;
    if 2 * r > den {
        q + 1
    } else if 2 * r < den {
        q
    } else if q % 2 == 0 {
        q
    } else {
        q + 1
    }
}

/// Ten to the `e`.
pub open spec fn spec_pow10(e: nat) -> nat
    decreases e,
{
    if e == 0 {
        1
    } else {
        10 * spec_pow10((e - 1) as nat)
    }
}

/// `n / d` rendered with exactly `prec` digits after the decimal point
/// (no point at all when `prec` is 0), rounding ties to even.
/// A zero denominator renders as the IEEE quotient would: `NaN` for 0/0,
/// `inf` otherwise.
pub open spec fn spec_ufixed(n: nat, d: nat, prec: nat) -> Seq<char> {
    if d == 0 {
        if n == 0 {
            "NaN"@
        } else {
            "inf"@
        }
    } else {
        let scaled: nat = spec_round_half_even(n * spec_pow10(prec), d);
        if prec == 0 {
            spec_udec(scaled)
        } else {
            spec_udec(scaled / spec_pow10(prec)) + seq!['.'] + spec_pad_digits(scaled, prec)
        }
    }
}

/// Signed counterpart of `spec_ufixed`: the magnitude is rendered as there,
/// and a leading `-` appears when numerator and denominator have opposite
/// signs (also for a negative zero, as IEEE printing does).
pub open spec fn spec_ifixed(n: int, d: int, prec: nat) -> Seq<char> {
    if d == 0 {
        if n == 0 {
            "NaN"@
        } else if n < 0 {
            "-inf"@
        } else {
            "inf"@
        }
    } else {
        let mag = spec_ufixed(vstd::math::abs(n) as nat, vstd::math::abs(d) as nat, prec);
        if (n < 0) != (d < 0) {
            seq!['-'] + mag
        } else {
            mag
        }
    }
}

/// The exact decimal expansion of the fraction `r / d` (with `r < d`),
/// cut off after `budget` digits, with trailing zero digits removed.
pub open spec fn spec_frac_digits(r: nat, d: nat, budget: nat) -> Seq<char>
    recommends
        0 < d,
        r < d,
    decreases budget,
{
    if budget == 0 || r == 0 {
        Seq::empty()
    } else {
        let digit: nat = (r * 10) / d;
        let rest = spec_frac_digits((r * 10) % d, d, (budget - 1) as nat);
        if rest.len() == 0 && digit % 10 == 0 {
            Seq::empty()
        } else {
            seq![spec_digit(digit)] + rest
        }
    }
}

/// `n / d` rendered as its exact decimal value: just the integer quotient
/// when the division is exact, otherwise quotient, point, and the fraction's
/// decimal expansion.  A non-terminating expansion is cut off so that, once
/// the integer part has one or more significant digits, integer and fraction
/// digits together do not exceed sixteen; below one, sixteen digits follow
/// the point.  A zero denominator renders as `NaN` or `inf`.
pub open spec fn spec_uratio(n: nat, d: nat) -> Seq<char> {
    if d == 0 {
        if n == 0 {
            "NaN"@
        } else {
            "inf"@
        }
    } else {
        let q: nat = n / d;
        let r: nat = n % d;
        if r == 0 {
            spec_udec(q)
        } else {
            let budget = if q == 0 {
                16
            } else if spec_udec(q).len() < 16 {
                (16 - spec_udec(q).len()) as nat
            } else {
                0
            };
            let frac = spec_frac_digits(r, d, budget as nat);
            if frac.len() == 0 {
                spec_udec(q)
            } else {
                spec_udec(q) + seq!['.'] + frac
            }
        }
    }
}

/// Signed counterpart of `spec_uratio`, signed as in `spec_ifixed`.
pub open spec fn spec_iratio(n: int, d: int) -> Seq<char> {
    if d == 0 {
        if n == 0 {
            "NaN"@
        } else if n < 0 {
            "-inf"@
        } else {
            "inf"@
        }
    } else {
        let mag = spec_uratio(vstd::math::abs(n) as nat, vstd::math::abs(d) as nat);
        if (n < 0) != (d < 0) {
            seq!['-'] + mag
        } else {
            mag
        }
    }
}

/// `s` left-padded with `0` characters up to `width` characters.
pub open spec fn spec_zero_pad(s: Seq<char>, width: nat) -> Seq<char>
    decreases width,
{
    if s.len() >= width {
        s
    } else {
        seq!['0'] + spec_zero_pad(s, (width - 1) as nat)
    }
}

/// The one-character string holding the decimal digit of `d % 10`.
pub fn digit_str(d: u128) -> (s: &'static str)
    ensures
        s@ == seq![spec_digit(d as nat)],
        s@.len() == 1,
{
    proof {
        reveal_strlit("0");
        reveal_strlit("1");
        reveal_strlit("2");
        reveal_strlit("3");
        reveal_strlit("4");
        reveal_strlit("5");
        reveal_strlit("6");
        reveal_strlit("7");
        reveal_strlit("8");
        reveal_strlit("9");
    }
    match d % 10 {
        0 => "0",
        1 => "1",
        2 => "2",
        3 => "3",
        4 => "4",
        5 => "5",
        6 => "6",
        7 => "7",
        8 => "8",
        _ => "9",
    }
}

/// `n` in decimal.
pub fn dec_u128(n: u128) -> (s: String)
    ensures
        s@ == spec_udec(n as nat),
    decreases n,
{
    if n < 10 {
        String::from_str(digit_str(n))
    } else {
        let mut s = dec_u128(n / 10);
        s.append(digit_str(n % 10));
        s
    }
}

/// `i` in decimal, with a leading `-` when negative.
pub fn dec_i64(i: i64) -> (s: String)
    requires
        i > i64::MIN,
    ensures
        s@ == spec_idec(i as int),
{
    if i < 0 {
        proof {
            reveal_strlit("-");
        }
        let mut s = String::from_str("-");
        let m = dec_u128((-i) as u128);
        s.append(m.as_str());
        s
    } else {
        dec_u128(i as u128)
    }
}

/// The last `width` decimal digits of `n`, zero-padded on the left.
pub fn pad_digits(n: u128, width: u32) -> (s: String)
    ensures
        s@ == spec_pad_digits(n as nat, width as nat),
    decreases width,
{
    if width == 0 {
        String::new()
    } else {
        let mut s = pad_digits(n / 10, width - 1);
        s.append(digit_str(n % 10));
        s
    }
}

/// Ten to the `e`, for small exponents.
pub fn pow10(e: u32) -> (r: u128)
    requires
        e <= 9,
    ensures
        r as nat == spec_pow10(e as nat),
        r >= 1,
{
    proof {
        reveal_with_fuel(spec_pow10, 11);
    }
    match e {
        0 => 1,
        1 => 10,
        2 => 100,
        3 => 1000,
        4 => 10000,
        5 => 100000,
        6 => 1000000,
        7 => 10000000,
        8 => 100000000,
        _ => 1000000000,
    }
}

/// `num / den` rounded to the nearest integer, ties to even.
pub fn round_he_u128(num: u128, den: u128) -> (r: u128)
    requires
        den > 0,
        num < u128::MAX,
    ensures
        r as nat == spec_round_half_even(num as nat, den as nat),
{
    let q: u128 = num / den;
    let r: u128 = num % den;
    if r > den - r {
        q + 1
    } else if r < den - r {
        q
    } else if q % 2 == 0 {
        q
    } else {
        q + 1
    }
}

/// Digits of an already scaled value: the whole value when `prec` is 0,
/// and otherwise integer part, point, and the last `prec` digits.
pub fn render_scaled(scaled: u128, prec: u32) -> (s: String)
    requires
        prec <= 9,
    ensures
        prec == 0 ==> s@ == spec_udec(scaled as nat),
        prec > 0 ==> s@ == spec_udec((scaled as nat) / spec_pow10(prec as nat)) + seq!['.']
            + spec_pad_digits(scaled as nat, prec as nat),
{
    let p: u128 = pow10(prec);
    if prec == 0 {
        dec_u128(scaled)
    } else {
        proof {
            reveal_strlit(".");
        }
        let mut s = dec_u128(scaled / p);
        s.append(".");
        let frac = pad_digits(scaled, prec);
        s.append(frac.as_str());
        s
    }
}

/// Scaling numerator and denominator by a common factor does not change
/// the rounded quotient.
pub proof fn lemma_round_he_scale(k: nat, num: nat, den: nat)
    requires
        k > 0,
        den > 0,
    ensures
        spec_round_half_even(k * num, k * den) == spec_round_half_even(num, den),
{
    vstd::arithmetic::div_mod::lemma_div_denominator(
        (k * num) as int,
        k as int,
        den as int,
    );
    vstd::arithmetic::div_mod::lemma_div_by_multiple(num as int, k as int);
    vstd::arithmetic::div_mod::lemma_truncate_middle(num as int, k as int, den as int);
    let q: nat = num / den;
    let r: nat = num % den;
    assert(k * num == num * k) by (nonlinear_arith);
    assert((num * k) / k == num);
    assert(((k * num) / k) / den == (k * num) / (k * den));
    assert((k * num) / (k * den) == q);
    assert((k * num) % (k * den) == k * r);
    assert((2 * (k * r) > k * den) == (2 * r > den)) by (nonlinear_arith)
        requires
            k > 0,
    ;
    assert((2 * (k * r) < k * den) == (2 * r < den)) by (nonlinear_arith)
        requires
            k > 0,
    ;
}

/// `n / d` with exactly `prec` digits after the point, ties to even.
pub fn fixed_u128(n: u128, d: u128, prec: u32) -> (s: String)
    requires
        prec <= 9,
        (n as nat) * spec_pow10(prec as nat) < u128::MAX,
    ensures
        s@ == spec_ufixed(n as nat, d as nat, prec as nat),
{
    if d == 0 {
        if n == 0 {
            String::from_str("NaN")
        } else {
            String::from_str("inf")
        }
    } else {
        let p: u128 = pow10(prec);
        let num: u128 = n * p;
        let scaled: u128 = round_he_u128(num, d);
        render_scaled(scaled, prec)
    }
}

/// `n / d` over 32-bit operands with `prec` digits after the point.
pub fn fixed_u32(n: u32, d: u32, prec: u32) -> (s: String)
    requires
        prec <= 9,
    ensures
        s@ == spec_ufixed(n as nat, d as nat, prec as nat),
{
    proof {
        reveal_with_fuel(spec_pow10, 11);
        assert((n as nat) * spec_pow10(prec as nat) < u128::MAX) by (nonlinear_arith)
            requires
                n <= 0xffff_ffffu32,
                1 <= spec_pow10(prec as nat) <= 1000000000,
        ;
    }
    fixed_u128(n as u128, d as u128, prec)
}

/// Signed fixed-point rendering, as `spec_ifixed`.
pub fn fixed_i64(n: i64, d: i64, prec: u32) -> (s: String)
    requires
        prec <= 9,
        n > i64::MIN,
        d > i64::MIN,
    ensures
        s@ == spec_ifixed(n as int, d as int, prec as nat),
{
    proof {
        reveal_strlit("-");
    }
    if d == 0 {
        if n == 0 {
            String::from_str("NaN")
        } else if n < 0 {
            String::from_str("-inf")
        } else {
            String::from_str("inf")
        }
    } else {
        let nm: u128 = if n < 0 {
            (-n) as u128
        } else {
            n as u128
        };
        let dm: u128 = if d < 0 {
            (-d) as u128
        } else {
            d as u128
        };
        proof {
            reveal_with_fuel(spec_pow10, 11);
            assert((nm as nat) * spec_pow10(prec as nat) < u128::MAX) by (nonlinear_arith)
                requires
                    nm < 0x8000_0000_0000_0000u128,
                    1 <= spec_pow10(prec as nat) <= 1000000000,
            ;
        }
        let mag = fixed_u128(nm, dm, prec);
        if (n < 0) != (d < 0) {
            let mut s = String::from_str("-");
            s.append(mag.as_str());
            s
        } else {
            mag
        }
    }
}

/// The exact decimal fraction digits of `r / d`, trailing zeros removed.
fn frac_digits(r: u64, d: u64, budget: u32) -> (s: String)
    requires
        0 < d,
        r < d,
    ensures
        s@ == spec_frac_digits(r as nat, d as nat, budget as nat),
    decreases budget,
{
    if budget == 0 || r == 0 {
        String::new()
    } else {
        let scaled: u128 = (r as u128) * 10;
        let digit: u128 = scaled / (d as u128);
        let rest = frac_digits(((scaled % (d as u128)) as u64), d, budget - 1);
        if rest.as_str().is_empty() && digit % 10 == 0 {
            String::new()
        } else {
            let mut s = String::from_str(digit_str(digit));
            s.append(rest.as_str());
            s
        }
    }
}

/// `n / d` as its exact decimal value, as `spec_uratio`.
pub fn ratio_u64(n: u64, d: u64) -> (s: String)
    ensures
        s@ == spec_uratio(n as nat, d as nat),
{
    if d == 0 {
        if n == 0 {
            String::from_str("NaN")
        } else {
            String::from_str("inf")
        }
    } else {
        let q: u64 = n / d;
        let r: u64 = n % d;
        if r == 0 {
            dec_u128(q as u128)
        } else {
            let qs = dec_u128(q as u128);
            let qlen: usize = qs.as_str().unicode_len();
            let budget: u32 = if q == 0 {
                16
            } else if qlen < 16 {
                16 - (qlen as u32)
            } else {
                0
            };
            let frac = frac_digits(r, d, budget);
            if frac.as_str().is_empty() {
                qs
            } else {
                proof {
                    reveal_strlit(".");
                }
                let mut s = qs;
                s.append(".");
                s.append(frac.as_str());
                s
            }
        }
    }
}

/// Signed counterpart of `ratio_u64`, as `spec_iratio`.
pub fn ratio_i64(n: i64, d: i64) -> (s: String)
    requires
        n > i64::MIN,
        d > i64::MIN,
    ensures
        s@ == spec_iratio(n as int, d as int),
{
    proof {
        reveal_strlit("-");
    }
    if d == 0 {
        if n == 0 {
            String::from_str("NaN")
        } else if n < 0 {
            String::from_str("-inf")
        } else {
            String::from_str("inf")
        }
    } else {
        let nm: u64 = if n < 0 {
            (-n) as u64
        } else {
            n as u64
        };
        let dm: u64 = if d < 0 {
            (-d) as u64
        } else {
            d as u64
        };
        let mag = ratio_u64(nm, dm);
        if (n < 0) != (d < 0) {
            let mut s = String::from_str("-");
            s.append(mag.as_str());
            s
        } else {
            mag
        }
    }
}

/// `s` left-padded with `0` characters up to `width` characters.
pub fn zero_pad(s: String, width: u32) -> (r: String)
    ensures
        r@ == spec_zero_pad(s@, width as nat),
    decreases width,
{
    let len: usize = s.as_str().unicode_len();
    if len >= width as usize {
        s
    } else {
        proof {
            reveal_strlit("0");
        }
        let mut r = String::from_str("0");
        let rest = zero_pad(s, width - 1);
        r.append(rest.as_str());
        r
    }
}

/// The lowercase hexadecimal digit character for `d % 16`.
pub open spec fn spec_hexdigit(d: nat) -> char {
    if d % 16 == 10 {
        'a'
    } else if d % 16 == 11 {
        'b'
    } else if d % 16 == 12 {
        'c'
    } else if d % 16 == 13 {
        'd'
    } else if d % 16 == 14 {
        'e'
    } else if d % 16 == 15 {
        'f'
    } else {
        spec_digit(d % 16)
    }
}

/// The lowercase hexadecimal digits of `n`, most significant first.
pub open spec fn spec_hex(n: nat) -> Seq<char>
    decreases n,
{
    if n < 16 {
        seq![spec_hexdigit(n)]
    } else {
        spec_hex(n / 16).push(spec_hexdigit(n % 16))
    }
}

/// The two lowercase hexadecimal digits of a byte, zero-padded.
pub open spec fn spec_hex_byte(b: nat) -> Seq<char> {
    seq![spec_hexdigit((b / 16) % 16), spec_hexdigit(b % 16)]
}

/// The one-character string holding the lowercase hex digit of `d % 16`.
pub fn hexdigit_str(d: u128) -> (s: &'static str)
    ensures
        s@ == seq![spec_hexdigit(d as nat)],
{
    proof {
        reveal_strlit("a");
        reveal_strlit("b");
        reveal_strlit("c");
        reveal_strlit("d");
        reveal_strlit("e");
        reveal_strlit("f");
    }
    match d % 16 {
        10 => "a",
        11 => "b",
        12 => "c",
        13 => "d",
        14 => "e",
        15 => "f",
        _ => digit_str(d % 16),
    }
}

/// `n` in lowercase hexadecimal.
pub fn hex_u128(n: u128) -> (s: String)
    ensures
        s@ == spec_hex(n as nat),
    decreases n,
{
    if n < 16 {
        String::from_str(hexdigit_str(n))
    } else {
        let mut s = hex_u128(n / 16);
        s.append(hexdigit_str(n % 16));
        s
    }
}

/// A byte as two lowercase hexadecimal digits, zero-padded.
pub fn hex_byte(b: u8) -> (s: String)
    ensures
        s@ == spec_hex_byte(b as nat),
{
    let mut s = String::from_str(hexdigit_str((b / 16) as u128));
    s.append(hexdigit_str((b % 16) as u128));
    s
}

} // verus!
