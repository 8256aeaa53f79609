//! Fixed-width decimal numerals in ASCII: what a run of digits denotes, how a
//! number is written with leading zeros, and the proof that the two agree.

use vstd::prelude::*;

verus! {

/// ASCII `0`.
pub const ZERO: u8 = 48;

/// ASCII `9`.
pub const NINE: u8 = 57;

/// ASCII `+`.
pub const PLUS: u8 = 43;

/// ASCII `-`.
pub const MINUS: u8 = 45;

/// Ten to the power `n`.
pub open spec fn pow10(n: nat) -> nat
    decreases n,
{
    if n == 0 {
        1
    } else {
        10 * pow10((n - 1) as nat)
    }
}

/// Whether `byte` is one of the ten ASCII decimal digits.
pub open spec fn is_digit(byte: u8) -> bool {
    ZERO <= byte <= NINE
}

/// Whether `text` is a decimal numeral: at least one byte, and digits only.
pub open spec fn is_numeral(text: Seq<u8>) -> bool {
    &&& text.len() > 0
    &&& forall|i: int| 0 <= i < text.len() ==> is_digit(#[trigger] text[i])
}

/// The number that the digits of `text` denote, most significant digit first.
pub open spec fn numeral_value(text: Seq<u8>) -> int
    decreases text.len(),
{
    if text.len() == 0 {
        0
    } else {
        10 * numeral_value(text.drop_last()) + (text.last() - ZERO)
    }
}

/// `value` written with exactly `width` decimal digits, padded with zeros on
/// the left. Digits above the `width`-th are dropped.
pub open spec fn numeral(value: nat, width: nat) -> Seq<u8>
    decreases width,
{
    if width == 0 {
        Seq::empty()
    } else {
        numeral(value / 10, (width - 1) as nat).push((ZERO + value % 10) as u8)
    }
}

/// Reads the decimal numeral that fills `input[at .. at + width]`.
///
/// Gives the number it denotes, or `None` if any of those bytes is not a
/// digit.
pub(crate) fn read_numeral(input: &[u8], at: usize, width: usize) -> (r: Option<u16>)
    requires
        1 <= width <= 4,
        at + width <= input.len(),
    ensures
        r is Some <==> is_numeral(input@.subrange(at as int, at + width)),
        r matches Some(v) ==> v == numeral_value(input@.subrange(at as int, at + width)),
{
    let ghost text = input@.subrange(at as int, at + width);
    let mut value: u16 = 0;
    let mut n: usize = 0;
    while n < width
        invariant
            1 <= width <= 4,
            at + width <= input.len(),
            text == input@.subrange(at as int, at + width),
            n <= width,
            value == numeral_value(text.take(n as int)),
            value < pow10(n as nat),
            forall|i: int| 0 <= i < n ==> is_digit(#[trigger] text[i]),
        decreases width - n,
    {
        let byte = input[at + n];
        assert(byte == text[n as int]);
        if byte < ZERO || byte > NINE {
            return None;
        }
        proof {
            lemma_value_step(text, n as int);
            assert(pow10(4) == 10000) by {
                reveal_with_fuel(pow10, 5);
            }
            lemma_pow10_grows((n + 1) as nat, 4);
        }
        value = 10 * value + (byte - ZERO) as u16;
        n += 1;
    }
    assert(text.take(width as int) =~= text);
    Some(value)
}

/// Appends `value` to `out` as `width` decimal digits, padded with zeros on
/// the left.
pub(crate) fn write_numeral(out: &mut Vec<u8>, value: u16, width: usize)
    ensures
        final(out)@ == old(out)@ + numeral(value as nat, width as nat),
    decreases width,
{
    if width > 0 {
        write_numeral(out, value / 10, width - 1);
        out.push(ZERO + (value % 10) as u8);
    }
}

/// Powers of ten grow with the exponent.
pub proof fn lemma_pow10_grows(m: nat, n: nat)
    requires
        m <= n,
    ensures
        0 < pow10(m) <= pow10(n),
    decreases n,
{
    if n > 0 {
        if m < n {
            lemma_pow10_grows(m, (n - 1) as nat);
        } else {
            lemma_pow10_grows((m - 1) as nat, (n - 1) as nat);
        }
    }
}

/// A numeral of `width` digits has `width` bytes, all of them digits.
pub proof fn lemma_numeral_shape(value: nat, width: nat)
    ensures
        numeral(value, width).len() == width,
        forall|i: int| 0 <= i < width ==> is_digit(#[trigger] numeral(value, width)[i]),
    decreases width,
{
    if width > 0 {
        lemma_numeral_shape(value / 10, (width - 1) as nat);
    }
}

/// Reading back what was written gives the number again, as long as the
/// number fits in the width.
pub proof fn lemma_value_of_numeral(value: nat, width: nat)
    requires
        value < pow10(width),
    ensures
        numeral_value(numeral(value, width)) == value,
    decreases width,
{
    if width > 0 {
        let head = numeral(value / 10, (width - 1) as nat);
        let text = numeral(value, width);
        lemma_value_of_numeral(value / 10, (width - 1) as nat);
        assert(text.drop_last() =~= head);
    }
}

/// Writing what was read gives the same bytes again: a run of digits is the
/// only way to write its value at that width.
pub proof fn lemma_numeral_of_value(text: Seq<u8>)
    requires
        forall|i: int| 0 <= i < text.len() ==> is_digit(#[trigger] text[i]),
    ensures
        0 <= numeral_value(text) < pow10(text.len()),
        numeral(numeral_value(text) as nat, text.len()) == text,
    decreases text.len(),
{
    if text.len() > 0 {
        lemma_numeral_of_value(text.drop_last());
    }
}

/// The value of a numeral grows by one decimal place with each digit read.
pub proof fn lemma_value_step(text: Seq<u8>, n: int)
    requires
        0 <= n < text.len(),
    ensures
        numeral_value(text.take(n + 1)) == 10 * numeral_value(text.take(n)) + (text[n] - ZERO),
{
    assert(text.take(n + 1).drop_last() =~= text.take(n));
}

} // verus!
