//! The numeric fields of the protocol: each a decimal numeral of fixed
//! width, with an optional sign, whose value lies in a fixed range.

pub mod days;
pub mod degs;
pub mod hrs;
pub mod mins;
pub mod months;
pub mod numeral;
pub mod secs;
pub mod yrs;

use crate::error::{Error, Malformed};
use numeral::{
    is_digit, is_numeral, lemma_numeral_of_value, lemma_numeral_shape, lemma_value_of_numeral,
    numeral, numeral_value, pow10, read_numeral, write_numeral, MINUS, PLUS,
};
use vstd::prelude::*;

verus! {

/// The kinds of numeric field.
#[derive(Clone, Copy, Debug, PartialEq, Eq, Structural)]
pub enum Field {
    /// `HH`, 00 to 24.
    Hours,
    /// `sHH`, -24 to +24.
    SignedHours,
    /// `MM`, 00 to 59.
    Minutes,
    /// `T`, 0 to 9.
    Tenths,
    /// `SS`, 00 to 59.
    Seconds,
    /// `DDD`, 000 to 359.
    Degrees,
    /// `sDD`, -90 to +90.
    SignedDegrees,
    /// `DD`, 01 to 31.
    Days,
    /// `MM`, 01 to 12.
    Months,
    /// `YY`, 00 to 99.
    Years,
}

impl Field {
    /// How many bytes the field takes on the wire, its sign included.
    #[verifier::allow_in_spec]
    pub fn width(self) -> usize
        returns
            (match self {
                Field::Tenths => 1usize,
                Field::Hours | Field::Minutes | Field::Seconds | Field::Days | Field::Months
                | Field::Years => 2usize,
                Field::SignedHours | Field::Degrees | Field::SignedDegrees => 3usize,
            }),
    {
        match self {
            Field::Tenths => 1,
            Field::Hours | Field::Minutes | Field::Seconds | Field::Days | Field::Months
            | Field::Years => 2,
            Field::SignedHours | Field::Degrees | Field::SignedDegrees => 3,
        }
    }

    /// Whether the field is written with a sign.
    #[verifier::allow_in_spec]
    pub fn signed(self) -> bool
        returns
            (self is SignedHours || self is SignedDegrees),
    {
        match self {
            Field::SignedHours | Field::SignedDegrees => true,
            _ => false,
        }
    }

    /// The least value the field may hold.
    #[verifier::allow_in_spec]
    pub fn min(self) -> i16
        returns
            (match self {
                Field::SignedHours => -24i16,
                Field::SignedDegrees => -90i16,
                Field::Days | Field::Months => 1i16,
                _ => 0i16,
            }),
    {
        match self {
            Field::SignedHours => -24,
            Field::SignedDegrees => -90,
            Field::Days | Field::Months => 1,
            _ => 0,
        }
    }

    /// The greatest value the field may hold.
    #[verifier::allow_in_spec]
    pub fn max(self) -> i16
        returns
            (match self {
                Field::Hours | Field::SignedHours => 24i16,
                Field::Minutes | Field::Seconds => 59i16,
                Field::Tenths => 9i16,
                Field::Degrees => 359i16,
                Field::SignedDegrees => 90i16,
                Field::Days => 31i16,
                Field::Months => 12i16,
                Field::Years => 99i16,
            }),
    {
        match self {
            Field::Hours | Field::SignedHours => 24,
            Field::Minutes | Field::Seconds => 59,
            Field::Tenths => 9,
            Field::Degrees => 359,
            Field::SignedDegrees => 90,
            Field::Days => 31,
            Field::Months => 12,
            Field::Years => 99,
        }
    }

    /// How many of the field's bytes are digits.
    pub open spec fn digits(self) -> nat {
        if self.signed() {
            (self.width() - 1) as nat
        } else {
            self.width() as nat
        }
    }

    /// Whether `value` lies in the field's range.
    pub open spec fn admits(self, value: int) -> bool {
        self.min() <= value <= self.max()
    }

    /// Whether `value` can be written in the field's width at all: a number
    /// of as many digits as the field has, negative only if the field is
    /// signed.
    pub open spec fn fits(self, value: int) -> bool {
        &&& -pow10(self.digits()) < value < pow10(self.digits())
        &&& value < 0 ==> self.signed()
    }

    /// The number that `text`, the bytes of one field, denotes: a decimal
    /// numeral which, in a signed field, `+` or `-` may precede. `None` if
    /// `text` is no such thing.
    pub open spec fn value_of(self, text: Seq<u8>) -> Option<int> {
        if self.signed() && text.len() > 0 && (text[0] == PLUS || text[0] == MINUS) {
            let digits = text.skip(1);
            if !is_numeral(digits) {
                None
            } else if text[0] == MINUS {
                Some(-numeral_value(digits))
            } else {
                Some(numeral_value(digits))
            }
        } else if is_numeral(text) {
            Some(numeral_value(text))
        } else {
            None
        }
    }

    /// `value` as the field writes it: padded with zeros to the field's
    /// width, and in a signed field always behind `+` or `-`.
    pub open spec fn text_of(self, value: int) -> Seq<u8> {
        if self.signed() {
            let sign = if value < 0 {
                MINUS
            } else {
                PLUS
            };
            let magnitude = if value < 0 {
                -value
            } else {
                value
            };
            seq![sign] + numeral(magnitude as nat, self.digits())
        } else {
            numeral(value as nat, self.digits())
        }
    }

    /// What reading the field at offset `at` of `input` gives: its value, or
    /// the error that stops the reading.
    ///
    /// Exactly the field's width is looked at, never more: too short an input
    /// is `Incomplete`, bytes that are no numeral are a `Format` error, and a
    /// numeral outside the range is a `Boundary` error.
    pub open spec fn read(self, input: Seq<u8>, at: nat) -> Result<int, Error> {
        let end = at + self.width();
        if input.len() < end {
            Err(Error::incomplete(input.len(), (end - input.len()) as nat))
        } else {
            match self.value_of(input.subrange(at as int, end as int)) {
                None => Err(
                    Error::Format { cause: Malformed::Numeral(self), inspected: end as usize },
                ),
                Some(value) => if self.admits(value) {
                    Ok(value)
                } else {
                    Err(Error::Boundary { field: self, inspected: end as usize })
                },
            }
        }
    }

    /// Reads the field at offset `at` of `input`.
    pub(crate) fn read_at(self, input: &[u8], at: usize) -> (r: Result<i16, Error>)
        requires
            at <= input.len(),
        ensures
            match self.read(input@, at as nat) {
                Ok(value) => r == Ok::<i16, Error>(value as i16) && self.admits(value),
                Err(e) => r == Err::<i16, Error>(e),
            },
    {
        let width = self.width();
        if input.len() - at < width {
            return Err(
                Error::Format {
                    cause: Malformed::Incomplete { needed: width - (input.len() - at) },
                    inspected: input.len(),
                },
            );
        }
        let ghost text = input@.subrange(at as int, at + width);
        let first = input[at];
        let signed = self.signed() && (first == PLUS || first == MINUS);
        let magnitude = if signed {
            assert(text.skip(1) =~= input@.subrange(at + 1, at + width));
            read_numeral(input, at + 1, width - 1)
        } else {
            read_numeral(input, at, width)
        };
        match magnitude {
            None => Err(Error::Format { cause: Malformed::Numeral(self), inspected: at + width }),
            Some(magnitude) => {
                proof {
                    lemma_numeral_of_value(
                        if signed {
                            text.skip(1)
                        } else {
                            text
                        },
                    );
                    reveal_with_fuel(pow10, 4);
                }
                let value: i16 = if signed && first == MINUS {
                    -(magnitude as i16)
                } else {
                    magnitude as i16
                };
                if value < self.min() || value > self.max() {
                    Err(Error::Boundary { field: self, inspected: at + width })
                } else {
                    Ok(value)
                }
            },
        }
    }

    /// Appends `value` to `out` as the field writes it.
    pub(crate) fn write(self, out: &mut Vec<u8>, value: i16)
        requires
            self.admits(value as int),
        ensures
            final(out)@ == old(out)@ + self.text_of(value as int),
    {
        if self.signed() {
            if value < 0 {
                out.push(MINUS);
                write_numeral(out, (-value) as u16, self.width() - 1);
            } else {
                out.push(PLUS);
                write_numeral(out, value as u16, self.width() - 1);
            }
        } else {
            write_numeral(out, value as u16, self.width());
        }
    }
}

/// Whether `r` is the outcome `model`, its value read through the view.
pub open spec fn agrees<T: View>(r: Result<T, Error>, model: Result<T::V, Error>) -> bool {
    match model {
        Ok(value) => r matches Ok(x) && x@ == value,
        Err(e) => r matches Err(x) && x == e,
    }
}

/// Every field writes exactly as many bytes as its width.
pub proof fn lemma_text_width(field: Field, value: int)
    ensures
        field.text_of(value).len() == field.width(),
{
    if field.signed() {
        let magnitude = if value < 0 {
            -value
        } else {
            value
        };
        lemma_numeral_shape(magnitude as nat, field.digits());
    } else {
        lemma_numeral_shape(value as nat, field.digits());
    }
}

/// A field reads back, as a number, whatever number it wrote, provided the
/// number can be written in the field's width.
pub proof fn lemma_value_of_text(field: Field, value: int)
    requires
        field.fits(value),
    ensures
        field.value_of(field.text_of(value)) == Some(value),
{
    let magnitude = if value < 0 {
        -value
    } else {
        value
    };
    let digits = numeral(magnitude as nat, field.digits());
    lemma_numeral_shape(magnitude as nat, field.digits());
    lemma_value_of_numeral(magnitude as nat, field.digits());
    if field.signed() {
        assert(field.text_of(value).skip(1) =~= digits);
    }
}

/// Every value of a field's range can be written in the field's width.
pub proof fn lemma_admitted_fits(field: Field, value: int)
    requires
        field.admits(value),
    ensures
        field.fits(value),
{
    reveal_with_fuel(pow10, 4);
}

/// A field reads the value whose text stands at the offset it reads from.
pub proof fn lemma_read_text(field: Field, value: int, input: Seq<u8>, at: nat)
    requires
        field.fits(value),
        at + field.width() <= input.len(),
        input.subrange(at as int, at + field.width()) == field.text_of(value),
    ensures
        field.read(input, at) == if field.admits(value) {
            Ok::<int, Error>(value)
        } else {
            Err::<int, Error>(
                Error::Boundary { field, inspected: (at + field.width()) as usize },
            )
        },
{
    lemma_value_of_text(field, value);
}

/// Round trip: a field reads back every value of its range that it has
/// written, whatever stands before and behind the field.
pub proof fn lemma_read_written(field: Field, value: int, before: Seq<u8>, after: Seq<u8>)
    requires
        field.admits(value),
    ensures
        field.read(before + field.text_of(value) + after, before.len()) == Ok::<int, Error>(value),
{
    let input = before + field.text_of(value) + after;
    lemma_text_width(field, value);
    lemma_admitted_fits(field, value);
    assert(input.subrange(before.len() as int, before.len() + field.width()) =~= field.text_of(
        value,
    ));
    lemma_read_text(field, value, input, before.len());
}

/// No clamping: a number that can be written in the field's width but lies
/// outside the field's range is read as a `Boundary` error.
pub proof fn lemma_read_out_of_range(field: Field, value: int, before: Seq<u8>, after: Seq<u8>)
    requires
        field.fits(value),
        !field.admits(value),
    ensures
        field.read(before + field.text_of(value) + after, before.len()) == Err::<int, Error>(
            Error::Boundary { field, inspected: (before.len() + field.width()) as usize },
        ),
{
    let input = before + field.text_of(value) + after;
    lemma_text_width(field, value);
    assert(input.subrange(before.len() as int, before.len() + field.width()) =~= field.text_of(
        value,
    ));
    lemma_read_text(field, value, input, before.len());
}

/// Bytes of the right width that are no numeral are read as a `Format` error:
/// it is enough that one byte of the field is not a digit, unless that byte
/// is the sign at the head of a signed field.
pub proof fn lemma_read_malformed(field: Field, input: Seq<u8>, at: nat, bad: nat)
    requires
        at + field.width() <= input.len(),
        bad < field.width(),
        !is_digit(input[(at + bad) as int]),
        !(bad == 0 && field.signed() && (input[at as int] == PLUS || input[at as int] == MINUS)),
    ensures
        field.read(input, at) == Err::<int, Error>(
            Error::Format {
                cause: Malformed::Numeral(field),
                inspected: (at + field.width()) as usize,
            },
        ),
{
    let text = input.subrange(at as int, at + field.width());
    assert(text[bad as int] == input[(at + bad) as int]);
    if field.signed() && (text[0] == PLUS || text[0] == MINUS) {
        assert(text.skip(1)[bad - 1] == text[bad as int]);
    }
}

} // verus!
