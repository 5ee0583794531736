//! Signed fixed-point numbers with 80 integer and 48 fractional bits.
//!
//! A number is held as its scaled integer: the value times 2^48, in an
//! `i128`. Every operation is checked: a result outside the `i128` range is
//! reported as `None`, never wrapped or saturated. The arithmetic itself is
//! done by the `fixed` crate; the functions of this module state what it
//! returns over the scaled integers.

use vstd::prelude::*;

verus! {

/// The scaled integer of 1.0, that is 2^48.
pub const ONE_BITS: i128 = 0x1_0000_0000_0000;

/// A fixed-point number, given by its scaled integer.
#[derive(Clone, Copy, Debug, PartialEq, Eq, Structural)]
pub struct I80F48 {
    pub bits: i128,
}

impl View for I80F48 {
    type V = int;

    /// The scaled integer: the number times 2^48.
    open spec fn view(&self) -> int {
        self.bits as int
    }
}

/// Whether a scaled integer can be held.
pub open spec fn representable(v: int) -> bool {
    i128::MIN <= v <= i128::MAX
}

/// The scaled integer `v` as an `i128`, if it can be held.
pub open spec fn fit(v: int) -> Option<i128> {
    if representable(v) {
        Some(v as i128)
    } else {
        None
    }
}

/// The number with scaled integer `v`, if it can be held.
pub open spec fn checked(v: int) -> Option<I80F48> {
    if representable(v) {
        Some(I80F48 { bits: v as i128 })
    } else {
        None
    }
}

/// Integer division that rounds toward zero, for a divisor other than zero.
pub open spec fn div_toward_zero(n: int, d: int) -> int {
    if n >= 0 && d > 0 {
        n / d
    } else if n >= 0 {
        -(n / (-d))
    } else if d > 0 {
        -((-n) / d)
    } else {
        (-n) / (-d)
    }
}

/// The scaled integer of a product: the exact product of the two scaled
/// integers, divided by 2^48 and rounded down.
pub open spec fn mul_bits(a: int, b: int) -> int {
    (a * b) / (ONE_BITS as int)
}

/// The scaled integer of a quotient: the dividend's scaled integer times
/// 2^48, divided by the divisor's and rounded toward zero.
pub open spec fn div_bits(a: int, b: int) -> int {
    div_toward_zero(a * (ONE_BITS as int), b)
}

/// `fixed::types::I80F48::from(u64)`: the conversion is lossless, so the
/// scaled integer is the argument times 2^48.
#[verifier::external_body]
fn fixed_from_u64(x: u64) -> (bits: i128)
    ensures
        bits == x * ONE_BITS,
{
    fixed::types::I80F48::from(x).to_bits()
}

/// `fixed::types::I80F48::checked_add`: the sum of the scaled integers, or
/// `None` where it does not fit in an `i128`.
#[verifier::external_body]
fn fixed_checked_add(a: i128, b: i128) -> (sum: Option<i128>)
    ensures
        sum == fit(a + b),
{
    match fixed::types::I80F48::from_bits(a).checked_add(fixed::types::I80F48::from_bits(b)) {
        Some(s) => Some(s.to_bits()),
        None => None,
    }
}

/// `fixed::types::I80F48::checked_sub`: the difference of the scaled
/// integers, or `None` where it does not fit in an `i128`.
#[verifier::external_body]
fn fixed_checked_sub(a: i128, b: i128) -> (difference: Option<i128>)
    ensures
        difference == fit(a - b),
{
    match fixed::types::I80F48::from_bits(a).checked_sub(fixed::types::I80F48::from_bits(b)) {
        Some(d) => Some(d.to_bits()),
        None => None,
    }
}

/// `fixed::types::I80F48::checked_mul`: the 256-bit product of the scaled
/// integers shifted right by 48 bits, which rounds down, or `None` where
/// that does not fit in an `i128`.
#[verifier::external_body]
fn fixed_checked_mul(a: i128, b: i128) -> (product: Option<i128>)
    ensures
        product == fit(mul_bits(a as int, b as int)),
{
    match fixed::types::I80F48::from_bits(a).checked_mul(fixed::types::I80F48::from_bits(b)) {
        Some(p) => Some(p.to_bits()),
        None => None,
    }
}

/// `fixed::types::I80F48::checked_div`: `None` for a zero divisor; else the
/// dividend shifted left by 48 bits and divided in 256 bits, which rounds
/// toward zero, or `None` where the quotient does not fit in an `i128`.
#[verifier::external_body]
fn fixed_checked_div(a: i128, b: i128) -> (quotient: Option<i128>)
    ensures
        quotient == if b == 0 {
            None
        } else {
            fit(div_bits(a as int, b as int))
        },
{
    match fixed::types::I80F48::from_bits(a).checked_div(fixed::types::I80F48::from_bits(b)) {
        Some(q) => Some(q.to_bits()),
        None => None,
    }
}

impl I80F48 {
    /// The sum, if it can be held.
    pub open spec fn spec_checked_add(self, rhs: I80F48) -> Option<I80F48> {
        checked(self@ + rhs@)
    }

    /// The difference, if it can be held.
    pub open spec fn spec_checked_sub(self, rhs: I80F48) -> Option<I80F48> {
        checked(self@ - rhs@)
    }

    /// The product rounded down to a multiple of 2^-48, if it can be held.
    pub open spec fn spec_checked_mul(self, rhs: I80F48) -> Option<I80F48> {
        checked(mul_bits(self@, rhs@))
    }

    /// The quotient rounded toward zero to a multiple of 2^-48, if the
    /// divisor is not zero and the quotient can be held.
    pub open spec fn spec_checked_div(self, rhs: I80F48) -> Option<I80F48> {
        if rhs@ == 0 {
            None
        } else {
            checked(div_bits(self@, rhs@))
        }
    }

    /// The whole number `x`.
    pub open spec fn spec_from_u64(x: u64) -> I80F48 {
        I80F48 { bits: (x * ONE_BITS) as i128 }
    }

    pub fn zero() -> (r: I80F48)
        ensures
            r@ == 0,
    {
        I80F48 { bits: 0 }
    }

    pub fn one() -> (r: I80F48)
        ensures
            r@ == ONE_BITS,
    {
        I80F48 { bits: ONE_BITS }
    }

    pub fn from_bits(bits: i128) -> (r: I80F48)
        ensures
            r.bits == bits,
    {
        I80F48 { bits }
    }

    pub fn to_bits(self) -> (bits: i128)
        ensures
            bits == self.bits,
    {
        self.bits
    }

    /// The whole number `x`; every `u64` can be held.
    #[verifier::when_used_as_spec(spec_from_u64)]
    pub fn from_u64(x: u64) -> (r: I80F48)
        ensures
            r == I80F48::spec_from_u64(x),
            r@ == x * ONE_BITS,
    {
        I80F48 { bits: fixed_from_u64(x) }
    }

    pub fn is_zero(self) -> (r: bool)
        ensures
            r == (self@ == 0),
    {
        self.bits == 0
    }

    pub fn is_negative(self) -> (r: bool)
        ensures
            r == (self@ < 0),
    {
        self.bits < 0
    }

    pub fn is_positive(self) -> (r: bool)
        ensures
            r == (self@ > 0),
    {
        self.bits > 0
    }

    #[verifier::when_used_as_spec(spec_checked_add)]
    pub fn checked_add(self, rhs: I80F48) -> (r: Option<I80F48>)
        ensures
            r == self.spec_checked_add(rhs),
    {
        match fixed_checked_add(self.bits, rhs.bits) {
            Some(bits) => Some(I80F48 { bits }),
            None => None,
        }
    }

    #[verifier::when_used_as_spec(spec_checked_sub)]
    pub fn checked_sub(self, rhs: I80F48) -> (r: Option<I80F48>)
        ensures
            r == self.spec_checked_sub(rhs),
    {
        match fixed_checked_sub(self.bits, rhs.bits) {
            Some(bits) => Some(I80F48 { bits }),
            None => None,
        }
    }

    #[verifier::when_used_as_spec(spec_checked_mul)]
    pub fn checked_mul(self, rhs: I80F48) -> (r: Option<I80F48>)
        ensures
            r == self.spec_checked_mul(rhs),
    {
        match fixed_checked_mul(self.bits, rhs.bits) {
            Some(bits) => Some(I80F48 { bits }),
            None => None,
        }
    }

    #[verifier::when_used_as_spec(spec_checked_div)]
    pub fn checked_div(self, rhs: I80F48) -> (r: Option<I80F48>)
        ensures
            r == self.spec_checked_div(rhs),
    {
        match fixed_checked_div(self.bits, rhs.bits) {
            Some(bits) => Some(I80F48 { bits }),
            None => None,
        }
    }
}

/// A product does not fall when one factor rises and the other is not
/// negative.
pub proof fn lemma_mul_bits_monotonic(x: int, y: int, m: int)
    requires
        x <= y,
        m >= 0,
    ensures
        mul_bits(x, m) <= mul_bits(y, m),
{
    vstd::arithmetic::mul::lemma_mul_inequality(x, y, m);
    vstd::arithmetic::div_mod::lemma_div_is_ordered(x * m, y * m, ONE_BITS as int);
}

/// A product has the sign of its first factor, or is zero, when the other
/// factor is not negative.
pub proof fn lemma_mul_bits_sign(x: int, m: int)
    requires
        m >= 0,
    ensures
        x >= 0 ==> mul_bits(x, m) >= 0,
        x <= 0 ==> mul_bits(x, m) <= 0,
{
    if x >= 0 {
        lemma_mul_bits_monotonic(0, x, m);
    }
    if x <= 0 {
        lemma_mul_bits_monotonic(x, 0, m);
    }
    assert(0 * m == 0);
}

} // verus!
