//! Decimal text of exact quantities: a sign, the whole part, and a fixed number of
//! decimal places, rounded half to even.

use vstd::prelude::*;
use crate::fixed::{abs, Fixed};

verus! {

/// `String::push` of the standard library: the character is added at the end of the
/// text, and nothing else of the text changes.
pub assume_specification[ String::push ](text: &mut String, ch: char)
    ensures
        final(text)@ == old(text)@.push(ch),
;

/// `String::push_str` of the standard library: the characters of the slice are added at
/// the end of the text, in their order, and nothing else of the text changes.
pub assume_specification[ String::push_str ](text: &mut String, string: &str)
    ensures
        final(text)@ == old(text)@ + string@,
;

/// The character of the digit `d`.
pub open spec fn digit_char(d: int) -> char {
    if d == 0 {
        '0'
    } else if d == 1 {
        '1'
    } else if d == 2 {
        '2'
    } else if d == 3 {
        '3'
    } else if d == 4 {
        '4'
    } else if d == 5 {
        '5'
    } else if d == 6 {
        '6'
    } else if d == 7 {
        '7'
    } else if d == 8 {
        '8'
    } else {
        '9'
    }
}

/// The decimal digits of `n`, without leading zeros; one zero for zero.
pub open spec fn whole_text(n: nat) -> Seq<char>
    decreases n,
{
    if n < 10 {
        seq![digit_char(n as int)]
    } else {
        whole_text(n / 10).push(digit_char((n % 10) as int))
    }
}

/// The last `places` decimal digits of `n`, with leading zeros.
pub open spec fn fraction_text(n: nat, places: nat) -> Seq<char>
    decreases places,
{
    if places == 0 {
        Seq::<char>::empty()
    } else {
        fraction_text(n / 10, (places - 1) as nat).push(digit_char((n % 10) as int))
    }
}

/// Ten to the power of `exponent`.
pub open spec fn pow10(exponent: nat) -> nat
    decreases exponent,
{
    if exponent == 0 {
        1
    } else {
        10 * pow10((exponent - 1) as nat)
    }
}

/// `n` in units of `unit`, rounded to the nearest whole number of them, and to the even
/// one where two are equally near.
pub open spec fn round_half_even(n: nat, unit: nat) -> nat {
    let quotient = n / unit;
    let rest = n % unit;
    if 2 * rest < unit || (2 * rest == unit && quotient % 2 == 0) {
        quotient
    } else {
        quotient + 1
    }
}

/// The text of a quantity of `micros` millionths with `places` decimal places, at most
/// six: a minus sign where `negative` is set, the whole part, and, where there are
/// decimal places, a point and that many digits.
pub open spec fn decimal_text(negative: bool, micros: nat, places: nat) -> Seq<char> {
    let scaled = round_half_even(micros, pow10((6 - places) as nat));
    let sign = if negative {
        seq!['-']
    } else {
        Seq::<char>::empty()
    };
    let whole = whole_text(scaled / pow10(places));
    if places == 0 {
        sign + whole
    } else {
        sign + whole + seq!['.'] + fraction_text(scaled % pow10(places), places)
    }
}

/// The text of `value` with `places` decimal places.
pub open spec fn fixed_text(value: Fixed, places: nat) -> Seq<char> {
    decimal_text(value@ < 0, abs(value@), places)
}

/// The text of a truth value.
pub open spec fn bool_text(value: bool) -> Seq<char> {
    if value {
        "true"@
    } else {
        "false"@
    }
}

/// The powers of ten grow, and none is zero.
pub proof fn lemma_pow10_grows(low: nat, high: nat)
    requires
        low <= high,
    ensures
        1 <= pow10(low) <= pow10(high),
    decreases high,
{
    if low < high {
        lemma_pow10_grows(low, (high - 1) as nat);
    } else if low > 0 {
        lemma_pow10_grows((low - 1) as nat, (high - 1) as nat);
    }
}

/// Ten to the power of `exponent`.
pub fn power_of_ten(exponent: u32) -> (power: u64)
    requires
        exponent <= 19,
    ensures
        power == pow10(exponent as nat),
{
    proof {
        reveal_with_fuel(pow10, 20);
        lemma_pow10_grows(exponent as nat, 19);
        assert(pow10(19) == 10_000_000_000_000_000_000);
    }
    let mut power: u64 = 1;
    let mut done: u32 = 0;
    while done < exponent
        invariant
            done <= exponent <= 19,
            power == pow10(done as nat),
            pow10(exponent as nat) <= 10_000_000_000_000_000_000,
        decreases exponent - done,
    {
        proof {
            lemma_pow10_grows((done + 1) as nat, exponent as nat);
        }
        power = power * 10;
        done = done + 1;
    }
    power
}

/// The character of the digit `d`.
pub fn digit(d: u64) -> (ch: char)
    requires
        d < 10,
    ensures
        ch == digit_char(d as int),
{
    if d == 0 {
        '0'
    } else if d == 1 {
        '1'
    } else if d == 2 {
        '2'
    } else if d == 3 {
        '3'
    } else if d == 4 {
        '4'
    } else if d == 5 {
        '5'
    } else if d == 6 {
        '6'
    } else if d == 7 {
        '7'
    } else if d == 8 {
        '8'
    } else {
        '9'
    }
}

/// Adds the decimal digits of `n` to the end of `out`.
pub fn push_whole(out: &mut String, n: u64)
    ensures
        final(out)@ == old(out)@ + whole_text(n as nat),
    decreases n,
{
    if n >= 10 {
        push_whole(out, n / 10);
    }
    out.push(digit(n % 10));
    proof {
        assert(final(out)@ =~= old(out)@ + whole_text(n as nat));
    }
}

/// Adds the last `places` decimal digits of `n` to the end of `out`.
pub fn push_fraction(out: &mut String, n: u64, places: u32)
    ensures
        final(out)@ == old(out)@ + fraction_text(n as nat, places as nat),
    decreases places,
{
    if places > 0 {
        push_fraction(out, n / 10, places - 1);
        out.push(digit(n % 10));
    }
    proof {
        assert(final(out)@ =~= old(out)@ + fraction_text(n as nat, places as nat));
    }
}

/// `n` in units of `unit`, rounded half to even.
pub fn rounded(n: u64, unit: u64) -> (r: u64)
    requires
        unit >= 1,
    ensures
        r == round_half_even(n as nat, unit as nat),
{
    let quotient = n / unit;
    let rest = n % unit;
    let up = if rest > unit - rest {
        true
    } else if rest == unit - rest {
        quotient % 2 == 1
    } else {
        false
    };
    if up {
        proof {
            assert(unit >= 2);
            assert(quotient <= n / 2) by (nonlinear_arith)
                requires
                    quotient == n / unit,
                    unit >= 2,
            ;
        }
        quotient + 1
    } else {
        quotient
    }
}

/// Adds to the end of `out` the text of a quantity of `micros` millionths with `places`
/// decimal places, with a minus sign before it where `negative` is set.
pub fn push_decimal(out: &mut String, negative: bool, micros: u64, places: u32)
    requires
        places <= 6,
    ensures
        final(out)@ == old(out)@ + decimal_text(negative, micros as nat, places as nat),
{
    proof {
        lemma_pow10_grows(0, (6 - places) as nat);
        lemma_pow10_grows(0, places as nat);
    }
    let scaled = rounded(micros, power_of_ten(6 - places));
    let unit = power_of_ten(places);
    if negative {
        out.push('-');
    }
    push_whole(out, scaled / unit);
    if places > 0 {
        out.push('.');
        push_fraction(out, scaled % unit, places);
    }
    proof {
        assert(final(out)@ =~= old(out)@ + decimal_text(negative, micros as nat, places as nat));
    }
}

/// Adds the text of `value` with `places` decimal places to the end of `out`.
pub fn push_fixed(out: &mut String, value: Fixed, places: u32)
    requires
        places <= 6,
    ensures
        final(out)@ == old(out)@ + fixed_text(value, places as nat),
{
    push_decimal(out, value.is_negative(), value.magnitude(), places);
}

/// Adds the text of a truth value to the end of `out`.
pub fn push_bool(out: &mut String, value: bool)
    ensures
        final(out)@ == old(out)@ + bool_text(value),
{
    if value {
        out.push_str("true");
    } else {
        out.push_str("false");
    }
}

} // verus!
