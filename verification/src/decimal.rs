//! Decimal numbers that keep every digit, by way of `rust_decimal`.

use std::str::FromStr;

use vstd::prelude::*;

use crate::text;

verus! {

/// Sign, mantissa and scale of a decimal number: the mantissa divided by ten to the scale.
pub ghost struct DecimalParts {
    pub negative: bool,
    pub mantissa: nat,
    pub scale: nat,
}

/// The bound on mantissas: 96 bits.
pub const MANTISSA_BOUND: u128 = 0x1_0000_0000_0000_0000_0000_0000;

/// The bound on scales.
pub const MAX_SCALE: u32 = 28;

/// Sign, mantissa and scale that `rust_decimal` reads of a text, or its error's text.
pub uninterp spec fn parsed_decimal(number: Seq<char>) -> Result<(bool, u128, u32), Seq<char>>;

/// `Decimal::from_str`: sign, mantissa and scale, in their bounds, or the error's text.
#[verifier::external_body]
fn decimal_from_text(number: &str) -> (r: Result<(bool, u128, u32), String>)
    ensures
        text::error_text(r) == parsed_decimal(number@),
        r is Ok ==> r->Ok_0.1 < MANTISSA_BOUND && r->Ok_0.2 <= MAX_SCALE,
{
    let value = rust_decimal::Decimal::from_str(number).map_err(|error| error.to_string())?;
    Ok((value.is_sign_negative(), value.mantissa().unsigned_abs(), value.scale()))
}

/// The digits of a mantissa with a point before the last `scale` of them, and at least one digit
/// before the point.
pub open spec fn point_text(mantissa: nat, scale: nat) -> Seq<char> {
    let digits = text::padded(mantissa, scale + 1);
    if scale == 0 {
        digits
    } else {
        digits.take(digits.len() - scale) + "."@ + digits.skip(digits.len() - scale)
    }
}

impl DecimalParts {
    /// The number in digits, behind a minus sign where it is negative.
    pub open spec fn text(self) -> Seq<char> {
        if self.negative {
            "-"@ + point_text(self.mantissa, self.scale)
        } else {
            point_text(self.mantissa, self.scale)
        }
    }

    /// The same number without zeros at the end of its fraction; zero has no sign.
    pub open spec fn normalized(self) -> DecimalParts
        decreases self.scale,
    {
        if self.mantissa == 0 {
            DecimalParts { negative: false, mantissa: 0, scale: 0 }
        } else if self.scale > 0 && self.mantissa % 10 == 0 {
            DecimalParts {
                mantissa: self.mantissa / 10,
                scale: (self.scale - 1) as nat,
                ..self
            }.normalized()
        } else {
            self
        }
    }
}

/// `Display` of a `Decimal` with the given parts.
#[verifier::external_body]
fn parts_text(negative: bool, mantissa: u128, scale: u32) -> (r: String)
    requires
        mantissa < MANTISSA_BOUND,
        scale <= MAX_SCALE,
    ensures
        r@ == (DecimalParts { negative, mantissa: mantissa as nat, scale: scale as nat }).text(),
{
    let mut value = rust_decimal::Decimal::from_i128_with_scale(mantissa as i128, scale);
    value.set_sign_negative(negative);
    value.to_string()
}

/// `Decimal::normalize` of a `Decimal` with the given parts: zeros at the end of the fraction are
/// dropped, and zero loses its sign.
#[verifier::external_body]
fn parts_normalized(negative: bool, mantissa: u128, scale: u32) -> (r: (bool, u128, u32))
    requires
        mantissa < MANTISSA_BOUND,
        scale <= MAX_SCALE,
    ensures
        (DecimalParts { negative: r.0, mantissa: r.1 as nat, scale: r.2 as nat }) == (
        DecimalParts { negative, mantissa: mantissa as nat, scale: scale as nat }).normalized(),
        r.1 < MANTISSA_BOUND && r.2 <= MAX_SCALE,
{
    let mut value = rust_decimal::Decimal::from_i128_with_scale(mantissa as i128, scale);
    value.set_sign_negative(negative);
    let short = value.normalize();
    (short.is_sign_negative(), short.mantissa().unsigned_abs(), short.scale())
}

/// A decimal number.
#[derive(Clone, Copy, Debug)]
pub struct DecimalValue {
    negative: bool,
    mantissa: u128,
    scale: u32,
}

impl View for DecimalValue {
    type V = DecimalParts;

    closed spec fn view(&self) -> DecimalParts {
        DecimalParts {
            negative: self.negative,
            mantissa: self.mantissa as nat,
            scale: self.scale as nat,
        }
    }
}

/// The parts in the form of a decimal number.
pub open spec fn as_parts(r: Result<(bool, u128, u32), Seq<char>>) -> Result<
    DecimalParts,
    Seq<char>,
> {
    match r {
        Ok((negative, mantissa, scale)) => Ok(
            DecimalParts { negative, mantissa: mantissa as nat, scale: scale as nat },
        ),
        Err(error) => Err(error),
    }
}

/// What a result holds.
pub open spec fn decimal_view(r: Result<DecimalValue, String>) -> Result<DecimalParts, Seq<char>> {
    match r {
        Ok(value) => Ok(value@),
        Err(error) => Err(error@),
    }
}

impl DecimalValue {
    #[verifier::type_invariant]
    spec fn well_formed(self) -> bool {
        self.mantissa < MANTISSA_BOUND && self.scale <= MAX_SCALE
    }

    /// The decimal number that a text writes.
    pub fn parse(number: &str) -> (r: Result<DecimalValue, String>)
        ensures
            decimal_view(r) == as_parts(parsed_decimal(number@)),
    {
        match decimal_from_text(number) {
            Ok((negative, mantissa, scale)) => Ok(DecimalValue { negative, mantissa, scale }),
            Err(error) => Err(error),
        }
    }

    /// The decimal number with the given parts, where they are in their bounds.
    pub fn from_parts(negative: bool, mantissa: u128, scale: u32) -> (r: Option<DecimalValue>)
        ensures
            r is Some <==> mantissa < MANTISSA_BOUND && scale <= MAX_SCALE,
            r is Some ==> r->Some_0@ == (DecimalParts {
                negative,
                mantissa: mantissa as nat,
                scale: scale as nat,
            }),
    {
        if mantissa < MANTISSA_BOUND && scale <= MAX_SCALE {
            Some(DecimalValue { negative, mantissa, scale })
        } else {
            None
        }
    }

    /// The number without its sign.
    pub fn abs(&self) -> (r: DecimalValue)
        ensures
            r@ == (DecimalParts { negative: false, ..self@ }),
    {
        proof {
            use_type_invariant(self);
        }
        DecimalValue { negative: false, mantissa: self.mantissa, scale: self.scale }
    }

    /// Whether the number has no minus sign.
    pub fn is_sign_positive(&self) -> (yes: bool)
        ensures
            yes == !self@.negative,
    {
        !self.negative
    }

    /// The number in digits.
    pub fn to_text(&self) -> (r: String)
        ensures
            r@ == self@.text(),
    {
        proof {
            use_type_invariant(self);
        }
        parts_text(self.negative, self.mantissa, self.scale)
    }
}

/// The number in digits, without zeros at the end of its fraction.
pub fn decimal_string(value: &DecimalValue) -> (r: String)
    ensures
        r@ == value@.normalized().text(),
{
    proof {
        use_type_invariant(value);
    }
    let (negative, mantissa, scale) = parts_normalized(value.negative, value.mantissa, value.scale);
    parts_text(negative, mantissa, scale)
}

/// Dropping the zeros keeps the value: the mantissa is smaller by just the powers of ten by which
/// the scale is smaller, and a number other than zero keeps its sign.
pub proof fn normalizing_keeps_the_value(number: DecimalParts)
    ensures
        number.mantissa > 0 ==> {
            let short = number.normalized();
            &&& short.negative == number.negative
            &&& short.scale <= number.scale
            &&& number.mantissa == short.mantissa * vstd::arithmetic::power::pow(
                10,
                (number.scale - short.scale) as nat,
            )
        },
        number.mantissa == 0 ==> number.normalized().mantissa == 0,
    decreases number.scale,
{
    vstd::arithmetic::power::lemma_pow0(10);
    if number.mantissa > 0 && number.scale > 0 && number.mantissa % 10 == 0 {
        let less = DecimalParts {
            mantissa: number.mantissa / 10,
            scale: (number.scale - 1) as nat,
            ..number
        };
        normalizing_keeps_the_value(less);
        let short = number.normalized();
        let gap = (less.scale - short.scale) as nat;
        vstd::arithmetic::power::lemma_pow_adds(10, gap, 1);
        vstd::arithmetic::power::lemma_pow1(10);
        let power = vstd::arithmetic::power::pow(10, gap);
        assert(short.mantissa * (power * 10) == (short.mantissa * power) * 10)
            by (nonlinear_arith);
    }
}

/// Nothing is left to drop: the fraction does not end in a zero.
pub proof fn normalized_has_no_trailing_zero(number: DecimalParts)
    ensures
        number.normalized().scale > 0 ==> number.normalized().mantissa % 10 != 0,
        number.normalized().normalized() == number.normalized(),
    decreases number.scale,
{
    if number.mantissa > 0 && number.scale > 0 && number.mantissa % 10 == 0 {
        normalized_has_no_trailing_zero(
            DecimalParts {
                mantissa: number.mantissa / 10,
                scale: (number.scale - 1) as nat,
                ..number
            },
        );
    }
}

} // verus!
