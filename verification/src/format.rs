//! From a number to the digits of a code.

use vstd::arithmetic::div_mod::{
    lemma_breakdown, lemma_div_denominator, lemma_fundamental_div_mod_converse, lemma_mod_mod,
    lemma_mod_twice,
};
use vstd::prelude::*;
use vstd::string::{StrSliceExecFns, StringExecFns};

verus! {

/// How many digits a code has.
pub const CODE_DIGITS: usize = 6;

/// Ten to the power `e`.
pub open spec fn pow10(e: nat) -> nat
    decreases e,
{
    if e == 0 {
        1
    } else {
        10 * pow10((e - 1) as nat)
    }
}

/// The decimal digit of `n` that counts `pow10(place)`.
pub open spec fn digit_at(n: nat, place: nat) -> nat {
    (n / pow10(place)) % 10
}

/// The character for the decimal digit `d`.
pub open spec fn digit_char(d: nat) -> char {
    (48 + d) as u8 as char
}

/// Whether `c` is one of `0` to `9`.
pub open spec fn is_digit(c: char) -> bool {
    '0' <= c <= '9'
}

/// The `width` low decimal digits of `n`, most significant first: `n` in
/// decimal, with zeros in front as far as it is shorter and without its
/// leading digits as far as it is longer.
pub open spec fn zero_padded(n: nat, width: nat) -> Seq<char> {
    Seq::new(width, |i: int| digit_char(digit_at(n, (width - 1 - i) as nat)))
}

/// The code for `value`: `value` modulo `pow10(digits)`, written with
/// exactly `digits` digits.
pub open spec fn code_text(value: u32, digits: nat) -> Seq<char> {
    zero_padded(value as nat % pow10(digits), digits)
}

/// The number that the digits of `text` spell in decimal.
pub open spec fn decimal_value(text: Seq<char>) -> nat
    decreases text.len(),
{
    if text.len() == 0 {
        0
    } else {
        decimal_value(text.drop_last()) * 10 + (text.last() as nat - 48) as nat
    }
}

/// Whether `text` has the shape of a code of `digits` digits.
pub open spec fn is_code(text: Seq<char>, digits: nat) -> bool {
    &&& text.len() == digits
    &&& forall|i: int| 0 <= i < text.len() ==> is_digit(#[trigger] text[i])
}

proof fn lemma_pow10_positive(e: nat)
    ensures
        pow10(e) > 0,
    decreases e,
{
    if e > 0 {
        lemma_pow10_positive((e - 1) as nat);
    }
}

proof fn lemma_pow10_adds(a: nat, b: nat)
    ensures
        pow10(a + b) == pow10(a) * pow10(b),
    decreases a,
{
    if a > 0 {
        lemma_pow10_adds((a - 1) as nat, b);
        assert(pow10(a + b) == 10 * pow10((a - 1 + b) as nat));
        assert(10 * (pow10((a - 1) as nat) * pow10(b)) == (10 * pow10((a - 1) as nat)) * pow10(b))
            by (nonlinear_arith);
    } else {
        assert(pow10(a + b) == 1 * pow10(b));
    }
}

/// Dropping one more digit from the right divides by ten once more.
proof fn lemma_pow10_step(n: nat, place: nat)
    ensures
        (n / pow10(place)) / 10 == n / pow10(place + 1),
{
    lemma_pow10_positive(place);
    lemma_div_denominator(n as int, pow10(place) as int, 10);
    assert(pow10(place + 1) == 10 * pow10(place));
    assert(pow10(place) * 10 == 10 * pow10(place)) by (nonlinear_arith);
}

/// The digits below `pow10(width)` do not change when the number is taken
/// modulo `pow10(width)`.
pub proof fn lemma_low_digits(n: nat, width: nat, place: nat)
    requires
        place < width,
    ensures
        digit_at(n % pow10(width), place) == digit_at(n, place),
{
    let low = pow10(place) as int;
    let high = pow10((width - place) as nat) as int;
    let above = pow10((width - place - 1) as nat) as int;
    lemma_pow10_positive(place);
    lemma_pow10_positive((width - place) as nat);
    lemma_pow10_positive((width - place - 1) as nat);
    lemma_pow10_adds(place, (width - place) as nat);
    assert(pow10(width) == low * high);
    assert(high == 10 * above);
    lemma_breakdown(n as int, low, high);
    let q = (n as int / low) % high;
    let r = n as int % low;
    assert(low * q == q * low) by (nonlinear_arith);
    lemma_fundamental_div_mod_converse(n as int % (low * high), low, q, r);
    assert((n % pow10(width)) as int / low == q);
    lemma_mod_mod(n as int / low, 10, above);
}

/// The digit of `n` one place up is the digit of a tenth of `n` in place.
proof fn lemma_digit_shift(n: nat, place: nat)
    ensures
        digit_at(n, place + 1) == digit_at(n / 10, place),
{
    lemma_pow10_positive(place);
    lemma_div_denominator(n as int, 10, pow10(place) as int);
    assert(pow10(place + 1) == 10 * pow10(place));
}

/// Read as a number, the `width` low digits of `n` give `n` modulo
/// `pow10(width)`.
pub proof fn lemma_zero_padded_value(n: nat, width: nat)
    ensures
        decimal_value(zero_padded(n, width)) == n % pow10(width),
    decreases width,
{
    if width == 0 {
        assert(pow10(0) == 1);
    } else {
        let text = zero_padded(n, width);
        let shorter = zero_padded(n / 10, (width - 1) as nat);
        lemma_zero_padded_value(n / 10, (width - 1) as nat);
        assert forall|i: int| 0 <= i < width - 1 implies #[trigger] text[i] == shorter[i] by {
            lemma_digit_shift(n, (width - 2 - i) as nat);
        }
        assert(text.drop_last() =~= shorter);
        assert(pow10(0) == 1);
        assert(text.last() == digit_char(n % 10));
        lemma_digit_char(n % 10);
        lemma_pow10_positive((width - 1) as nat);
        lemma_breakdown(n as int, 10, pow10((width - 1) as nat) as int);
    }
}

/// Read as a number, a code is the value it was made from, modulo
/// `pow10(digits)`.
pub proof fn lemma_code_text_value(value: u32, digits: nat)
    ensures
        decimal_value(code_text(value, digits)) == value as nat % pow10(digits),
{
    lemma_pow10_positive(digits);
    lemma_zero_padded_value(value as nat % pow10(digits), digits);
    lemma_mod_twice(value as int, pow10(digits) as int);
}

/// A digit is always one of `0` to `9`.
pub proof fn lemma_digit_char(d: nat)
    requires
        d < 10,
    ensures
        is_digit(digit_char(d)),
        digit_char(d) as nat == 48 + d,
{
}

/// Whatever the number, its code has exactly `digits` characters, and
/// each of them is a decimal digit.
pub proof fn lemma_code_text_is_code(value: u32, digits: nat)
    ensures
        is_code(code_text(value, digits), digits),
{
    let text = code_text(value, digits);
    assert forall|i: int| 0 <= i < text.len() implies is_digit(#[trigger] text[i]) by {
        let d = digit_at(value as nat % pow10(digits), (digits - 1 - i) as nat);
        lemma_digit_char(d);
    }
}

/// The one-character text for the digit `d`.
fn digit_text(d: u8) -> (text: &'static str)
    requires
        d < 10,
    ensures
        text@ == seq![digit_char(d as nat)],
{
    let digits = "0123456789";
    proof {
        reveal_strlit("0123456789");
    }
    let from = d as usize;
    let text = digits.substring_ascii(from, from + 1);
    assert(text@ =~= seq![digit_char(d as nat)]);
    text
}

/// Writes `value` modulo ten to the power `digits` in decimal, with zeros
/// in front up to exactly `digits` characters.
pub fn format_code(value: u32, digits: usize) -> (text: String)
    ensures
        text@ == code_text(value, digits as nat),
        is_code(text@, digits as nat),
{
    let mut low_first: Vec<u8> = Vec::new();
    let mut rest = value;
    let mut place: usize = 0;
    assert(pow10(0) == 1);
    while place < digits
        invariant
            place <= digits,
            low_first@.len() == place,
            rest as nat == value as nat / pow10(place as nat),
            forall|j: int|
                0 <= j < place ==> #[trigger] low_first@[j] as nat == digit_at(
                    value as nat,
                    j as nat,
                ),
        decreases digits - place,
    {
        proof {
            lemma_pow10_step(value as nat, place as nat);
        }
        low_first.push((rest % 10) as u8);
        rest = rest / 10;
        place += 1;
    }
    let mut text = String::new();
    let mut left = digits;
    while left > 0
        invariant
            left <= digits,
            low_first@.len() == digits,
            forall|j: int|
                0 <= j < digits ==> #[trigger] low_first@[j] as nat == digit_at(
                    value as nat,
                    j as nat,
                ),
            text@ == Seq::new(
                (digits - left) as nat,
                |i: int| digit_char(digit_at(value as nat, (digits - 1 - i) as nat)),
            ),
        decreases left,
    {
        left -= 1;
        text.append(digit_text(low_first[left]));
        assert(text@ =~= Seq::new(
            (digits - left) as nat,
            |i: int| digit_char(digit_at(value as nat, (digits - 1 - i) as nat)),
        ));
    }
    proof {
        let code = code_text(value, digits as nat);
        assert forall|i: int| 0 <= i < digits implies #[trigger] code[i] == text@[i] by {
            lemma_low_digits(value as nat, digits as nat, (digits - 1 - i) as nat);
        }
        assert(text@ =~= code);
        lemma_code_text_is_code(value, digits as nat);
    }
    text
}

} // verus!
