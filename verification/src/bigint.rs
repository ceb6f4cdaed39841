use vstd::prelude::*;
use num_bigint::BigInt;
use num_bigint::Sign;
use num_traits::ToPrimitive;

verus! {

/// The value of little-endian base-2^32 digits.
pub open spec fn digits_value(d: Seq<u32>) -> nat
    decreases d.len(),
{
    if d.len() == 0 {
        0
    } else {
        (d[0] + 0x1_0000_0000 * digits_value(d.drop_first())) as nat
    }
}

/// The character of a decimal digit.
pub open spec fn digit_char(d: nat) -> char {
    (48 + d) as char
}

/// The decimal digits of a natural number, most significant first, with no
/// leading zero.
pub open spec fn nat_to_decimal(n: nat) -> Seq<char>
    decreases n,
{
    if n < 10 {
        seq![digit_char(n)]
    } else {
        nat_to_decimal(n / 10).push(digit_char(n % 10))
    }
}

/// The decimal representation of an integer, with a leading `-` when it is
/// negative.
pub open spec fn int_to_decimal(v: int) -> Seq<char> {
    if v < 0 {
        seq!['-'] + nat_to_decimal((-v) as nat)
    } else {
        nat_to_decimal(v as nat)
    }
}

/// A Python `int` of any size: a sign and the magnitude's base-2^32 digits,
/// least significant first.
#[derive(Debug)]
pub struct PyInt {
    pub negative: bool,
    pub digits: Vec<u32>,
}

impl View for PyInt {
    type V = int;

    open spec fn view(&self) -> int {
        if self.negative {
            -digits_value(self.digits@)
        } else {
            digits_value(self.digits@) as int
        }
    }
}

impl PyInt {
    /// Zero.
    pub fn zero() -> (r: PyInt)
        ensures
            r@ == 0,
    {
        PyInt { negative: false, digits: Vec::new() }
    }

    /// One.
    pub fn one() -> (r: PyInt)
        ensures
            r@ == 1,
    {
        let mut digits: Vec<u32> = Vec::new();
        digits.push(1);
        proof {
            assert(digits@.drop_first() =~= Seq::<u32>::empty());
            reveal_with_fuel(digits_value, 2);
        }
        PyInt { negative: false, digits }
    }

    /// A copy of this integer.
    pub fn copy(&self) -> (r: PyInt)
        ensures
            r@ == self@,
            r.negative == self.negative,
            r.digits@ == self.digits@,
    {
        let mut digits: Vec<u32> = Vec::new();
        let mut i: usize = 0;
        while i < self.digits.len()
            invariant
                i <= self.digits@.len(),
                digits@ == self.digits@.take(i as int),
            decreases self.digits@.len() - i,
        {
            digits.push(self.digits[i]);
            i = i + 1;
            proof {
                assert(digits@ =~= self.digits@.take(i as int));
            }
        }
        proof {
            assert(self.digits@.take(i as int) =~= self.digits@);
        }
        PyInt { negative: self.negative, digits }
    }

    /// The integer with the value of a machine integer.
    pub fn from_i64(v: i64) -> (r: PyInt)
        ensures
            r@ == v,
    {
        bigint_from_i64(v)
    }

    /// This integer as an `i32`, if it fits.
    pub fn to_i32(&self) -> (r: Option<i32>)
        ensures
            r == (if i32::MIN <= self@ <= i32::MAX {
                Some(self@ as i32)
            } else {
                None
            }),
    {
        bigint_to_i32(self)
    }

    /// This integer as a `usize`, if it fits.
    pub fn to_usize(&self) -> (r: Option<usize>)
        ensures
            r == (if 0 <= self@ <= usize::MAX {
                Some(self@ as usize)
            } else {
                None
            }),
    {
        bigint_to_usize(self)
    }

    /// The decimal representation of this integer.
    pub fn to_decimal_string(&self) -> (r: String)
        ensures
            r@ == int_to_decimal(self@),
    {
        bigint_to_string(self)
    }
}

/// Calls `num_bigint::BigInt::from(i64)` and reads the result back with
/// `BigInt::to_u32_digits`. Claims that the sign and digits read back stand
/// for the same integer.
#[verifier::external_body]
fn bigint_from_i64(v: i64) -> (r: PyInt)
    ensures
        r@ == v,
{
    let (sign, digits) = BigInt::from(v).to_u32_digits();
    let negative = match sign {
        Sign::Minus => true,
        Sign::NoSign => false,
        Sign::Plus => false,
    };
    PyInt { negative, digits }
}

/// Builds a `num_bigint::BigInt` with `BigInt::from_slice` and calls
/// `num_traits::ToPrimitive::to_i32` on it. Claims the documented result:
/// the value when it fits in an `i32`, else `None`.
#[verifier::external_body]
fn bigint_to_i32(x: &PyInt) -> (r: Option<i32>)
    ensures
        r == (if i32::MIN <= x@ <= i32::MAX {
            Some(x@ as i32)
        } else {
            None
        }),
{
    let sign = if x.negative { Sign::Minus } else { Sign::Plus };
    BigInt::from_slice(sign, &x.digits).to_i32()
}

/// Builds a `num_bigint::BigInt` with `BigInt::from_slice` and calls
/// `num_traits::ToPrimitive::to_usize` on it. Claims the documented result:
/// the value when it fits in a `usize`, else `None`.
#[verifier::external_body]
fn bigint_to_usize(x: &PyInt) -> (r: Option<usize>)
    ensures
        r == (if 0 <= x@ <= usize::MAX {
            Some(x@ as usize)
        } else {
            None
        }),
{
    let sign = if x.negative { Sign::Minus } else { Sign::Plus };
    BigInt::from_slice(sign, &x.digits).to_usize()
}

/// Builds a `num_bigint::BigInt` with `BigInt::from_slice` and formats it
/// with its `Display` impl (`to_string`). Claims that the text is the
/// decimal representation: a `-` for a negative value, then the digits of
/// the magnitude with no leading zero (`0` for zero).
#[verifier::external_body]
fn bigint_to_string(x: &PyInt) -> (r: String)
    ensures
        r@ == int_to_decimal(x@),
{
    let sign = if x.negative { Sign::Minus } else { Sign::Plus };
    BigInt::from_slice(sign, &x.digits).to_string()
}

} // verus!
