//! Base-10 decimal numbers with a 96-bit mantissa and a scale of at most 28
//! digits, the representation of `rust_decimal::Decimal`.
//!
//! A `Decimal` stands for `mantissa / 10^scale`. Contracts speak of its value
//! through [`Decimal::units`], the value counted in units of `10^-28`, which is
//! an integer for every valid decimal.

use vstd::prelude::*;
use vstd::arithmetic::power::pow;

verus! {

/// Largest scale a decimal can have.
pub const MAX_SCALE: u32 = 28;

/// Largest magnitude of a mantissa: `2^96 - 1`.
pub const MAX_MANTISSA: i128 = 0xFFFF_FFFF_FFFF_FFFF_FFFF_FFFF;

/// What `rust_decimal`'s checked addition yields for two decimals, each given
/// as mantissa and scale: `None` on overflow, else mantissa and scale of the
/// sum. The sum is rounded where it does not fit in 96 bits at the larger of
/// the two scales, so this is not always the exact sum.
pub uninterp spec fn decimal_sum(a_mantissa: int, a_scale: int, b_mantissa: int, b_scale: int) -> Option<(int, int)>;

/// -1, 0 or 1 as `x` is below, equal to or above `y`.
pub open spec fn order_of(x: int, y: int) -> i8 {
    if x < y {
        -1i8
    } else if x == y {
        0i8
    } else {
        1i8
    }
}

/// A decimal number `mantissa / 10^scale`.
#[derive(Clone, Copy, Debug)]
pub struct Decimal {
    mantissa: i128,
    scale: u32,
}

impl Decimal {
    /// The mantissa, as a specification value.
    pub closed spec fn spec_mantissa(&self) -> i128 {
        self.mantissa
    }

    /// The scale, as a specification value.
    pub closed spec fn spec_scale(&self) -> u32 {
        self.scale
    }

    /// Whether mantissa and scale are within the representable range.
    pub open spec fn in_range(&self) -> bool {
        &&& -MAX_MANTISSA <= self.spec_mantissa() <= MAX_MANTISSA
        &&& self.spec_scale() <= MAX_SCALE
    }

    #[verifier::type_invariant]
    closed spec fn inv(&self) -> bool {
        self.in_range()
    }

    /// The value in units of `10^-28`.
    pub open spec fn units(&self) -> int {
        self.spec_mantissa() * pow(10, (MAX_SCALE - self.spec_scale()) as nat)
    }

    /// `num / 10^scale`.
    pub fn new(num: i64, scale: u32) -> (d: Decimal)
        requires
            scale <= MAX_SCALE,
        ensures
            d.spec_mantissa() == num,
            d.spec_scale() == scale,
            d.in_range(),
    {
        Decimal { mantissa: num as i128, scale }
    }

    /// `num / 10^scale`, if the mantissa fits in 96 bits and the scale is at
    /// most 28.
    pub fn try_from_i128_with_scale(num: i128, scale: u32) -> (r: Option<Decimal>)
        ensures
            r is Some <==> -MAX_MANTISSA <= num <= MAX_MANTISSA && scale <= MAX_SCALE,
            r matches Some(d) ==> d.spec_mantissa() == num && d.spec_scale() == scale,
    {
        if scale <= MAX_SCALE && -MAX_MANTISSA <= num && num <= MAX_MANTISSA {
            Some(Decimal { mantissa: num, scale })
        } else {
            None
        }
    }

    /// Zero with scale 0, as a specification value.
    pub closed spec fn spec_zero() -> Decimal {
        Decimal { mantissa: 0, scale: 0 }
    }

    /// Zero, with scale 0.
    #[verifier::when_used_as_spec(spec_zero)]
    pub fn zero() -> (d: Decimal)
        ensures
            d == Self::spec_zero(),
            d.spec_mantissa() == 0,
            d.spec_scale() == 0,
            d.units() == 0,
            d.in_range(),
    {
        Decimal { mantissa: 0, scale: 0 }
    }

    /// Zero has mantissa 0, scale 0 and the value 0.
    pub proof fn lemma_zero()
        ensures
            Self::spec_zero().spec_mantissa() == 0,
            Self::spec_zero().spec_scale() == 0,
            Self::spec_zero().units() == 0,
            Self::spec_zero().in_range(),
    {
    }

    #[verifier::when_used_as_spec(spec_mantissa)]
    pub fn mantissa(&self) -> (m: i128)
        ensures
            m == self.spec_mantissa(),
            -MAX_MANTISSA <= m <= MAX_MANTISSA,
    {
        proof {
            use_type_invariant(self);
        }
        self.mantissa
    }

    #[verifier::when_used_as_spec(spec_scale)]
    pub fn scale(&self) -> (s: u32)
        ensures
            s == self.spec_scale(),
            s <= MAX_SCALE,
    {
        proof {
            use_type_invariant(self);
        }
        self.scale
    }

    /// Decimals of one scale are ordered as their mantissas are, and are
    /// equal in value only if their mantissas are equal.
    pub proof fn lemma_order_at_equal_scales(a: Decimal, b: Decimal)
        requires
            a.spec_scale() == b.spec_scale(),
            a.spec_scale() <= MAX_SCALE,
        ensures
            a.units() < b.units() <==> a.spec_mantissa() < b.spec_mantissa(),
            a.units() == b.units() <==> a.spec_mantissa() == b.spec_mantissa(),
            a.units() - b.units() == (a.spec_mantissa() - b.spec_mantissa()) * pow(
                10,
                (MAX_SCALE - a.spec_scale()) as nat,
            ),
    {
        let p = pow(10, (MAX_SCALE - a.spec_scale()) as nat);
        vstd::arithmetic::power::lemma_pow_positive(10, (MAX_SCALE - a.spec_scale()) as nat);
        let x = a.spec_mantissa() as int;
        let y = b.spec_mantissa() as int;
        assert(x * p - y * p == (x - y) * p) by (nonlinear_arith);
        assert(x < y ==> x * p < y * p) by (nonlinear_arith)
            requires
                p > 0,
        ;
        assert(x > y ==> x * p > y * p) by (nonlinear_arith)
            requires
                p > 0,
        ;
    }

    /// The value is negative, zero or positive as the mantissa is.
    pub proof fn lemma_sign(a: Decimal)
        requires
            a.spec_scale() <= MAX_SCALE,
        ensures
            a.units() < 0 <==> a.spec_mantissa() < 0,
            a.units() == 0 <==> a.spec_mantissa() == 0,
    {
        let p = pow(10, (MAX_SCALE - a.spec_scale()) as nat);
        vstd::arithmetic::power::lemma_pow_positive(10, (MAX_SCALE - a.spec_scale()) as nat);
        let x = a.spec_mantissa() as int;
        assert(x < 0 ==> x * p < 0) by (nonlinear_arith)
            requires
                p > 0,
        ;
        assert(x > 0 ==> x * p > 0) by (nonlinear_arith)
            requires
                p > 0,
        ;
        assert(x == 0 ==> x * p == 0) by (nonlinear_arith);
    }

    /// Two decimals of one scale add exactly if the sum of their mantissas
    /// fits in 96 bits, and only then.
    pub proof fn lemma_adds_exactly_at_equal_scales(a: Decimal, b: Decimal)
        requires
            a.in_range(),
            b.in_range(),
            a.spec_scale() == b.spec_scale(),
        ensures
            a.adds_exactly(&b) <==> -MAX_MANTISSA <= a.spec_mantissa() + b.spec_mantissa()
                <= MAX_MANTISSA,
    {
        assert(pow(10, 0) == 1) by {
            vstd::arithmetic::power::lemma_pow0(10);
        }
    }

    /// The mantissa brought to the scale `to`, which is at least the own scale.
    pub open spec fn mantissa_at(&self, to: u32) -> int {
        self.spec_mantissa() * pow(10, (to - self.spec_scale()) as nat)
    }

    /// The larger of the two scales.
    pub open spec fn larger_scale(&self, other: &Decimal) -> u32 {
        if self.spec_scale() >= other.spec_scale() {
            self.spec_scale()
        } else {
            other.spec_scale()
        }
    }

    /// Whether adding `other` needs no rounding: one of the two is zero, or
    /// both mantissas, brought to the larger of the two scales, and their
    /// sum fit in 96 bits.
    pub open spec fn adds_exactly(&self, other: &Decimal) -> bool {
        let s = self.larger_scale(other);
        let x = self.mantissa_at(s);
        let y = other.mantissa_at(s);
        ||| self.spec_mantissa() == 0
        ||| other.spec_mantissa() == 0
        ||| {
            &&& -MAX_MANTISSA <= x <= MAX_MANTISSA
            &&& -MAX_MANTISSA <= y <= MAX_MANTISSA
            &&& -MAX_MANTISSA <= x + y <= MAX_MANTISSA
        }
    }

    /// The sum where adding needs no rounding: the other number where one
    /// of the two is zero, else the sum of the mantissas at the larger of
    /// the two scales, with that scale.
    pub closed spec fn exact_sum(&self, other: &Decimal) -> Decimal {
        if self.mantissa == 0 {
            *other
        } else if other.mantissa == 0 {
            *self
        } else {
            let s = self.larger_scale(other);
            Decimal { mantissa: (self.mantissa_at(s) + other.mantissa_at(s)) as i128, scale: s }
        }
    }

    /// What the exact sum is made of, that it is a decimal in range, and
    /// that its value is the sum of the two values.
    pub proof fn lemma_exact_sum(a: Decimal, b: Decimal)
        requires
            a.in_range(),
            b.in_range(),
            a.adds_exactly(&b),
        ensures
            a.spec_mantissa() == 0 ==> a.exact_sum(&b) == b,
            a.spec_mantissa() != 0 && b.spec_mantissa() == 0 ==> a.exact_sum(&b) == a,
            a.spec_mantissa() != 0 && b.spec_mantissa() != 0 ==> {
                &&& a.exact_sum(&b).spec_scale() == a.larger_scale(&b)
                &&& a.exact_sum(&b).spec_mantissa() == a.mantissa_at(a.larger_scale(&b))
                    + b.mantissa_at(a.larger_scale(&b))
            },
            a.exact_sum(&b).in_range(),
            a.exact_sum(&b).units() == a.units() + b.units(),
    {
        Self::lemma_sign(a);
        Self::lemma_sign(b);
        if a.spec_mantissa() != 0 && b.spec_mantissa() != 0 {
            let s = a.larger_scale(&b);
            let q = pow(10, (MAX_SCALE - s) as nat);
            let pa = pow(10, (s - a.spec_scale()) as nat);
            let pb = pow(10, (s - b.spec_scale()) as nat);
            vstd::arithmetic::power::lemma_pow_adds(
                10,
                (s - a.spec_scale()) as nat,
                (MAX_SCALE - s) as nat,
            );
            vstd::arithmetic::power::lemma_pow_adds(
                10,
                (s - b.spec_scale()) as nat,
                (MAX_SCALE - s) as nat,
            );
            let x = a.spec_mantissa() as int;
            let y = b.spec_mantissa() as int;
            assert((x * pa + y * pb) * q == x * (pa * q) + y * (pb * q)) by (nonlinear_arith);
        }
    }

    /// Between two decimals of one scale that are not zero, the exact sum
    /// has that scale and the sum of the two mantissas.
    pub proof fn lemma_exact_sum_at_equal_scales(a: Decimal, b: Decimal)
        requires
            a.in_range(),
            b.in_range(),
            a.spec_scale() == b.spec_scale(),
            a.spec_mantissa() != 0,
            b.spec_mantissa() != 0,
            -MAX_MANTISSA <= a.spec_mantissa() + b.spec_mantissa() <= MAX_MANTISSA,
        ensures
            a.adds_exactly(&b),
            a.exact_sum(&b).spec_scale() == a.spec_scale(),
            a.exact_sum(&b).spec_mantissa() == a.spec_mantissa() + b.spec_mantissa(),
    {
        assert(pow(10, 0) == 1) by {
            vstd::arithmetic::power::lemma_pow0(10);
        }
    }

    /// The sum as `rust_decimal` computes it, `None` on overflow.
    pub closed spec fn sum_with(&self, other: &Decimal) -> Option<Decimal> {
        match decimal_sum(
            self.spec_mantissa() as int,
            self.spec_scale() as int,
            other.spec_mantissa() as int,
            other.spec_scale() as int,
        ) {
            Some((m, s)) => Some(Decimal { mantissa: m as i128, scale: s as u32 }),
            None => None,
        }
    }

    /// Whether `d` is the decimal that `pair` describes.
    pub open spec fn is_pair(d: Option<Decimal>, pair: Option<(int, int)>) -> bool {
        match d {
            Some(v) => pair == Some((v.spec_mantissa() as int, v.spec_scale() as int)),
            None => pair is None,
        }
    }

    /// Calls `rust_decimal::Decimal::checked_add` on the two numbers. The
    /// result is the named sum; it is within range, as every value of the
    /// outside type is; where no rounding is needed the addition succeeds and
    /// gives the exact sum, which is the other number where one is zero and
    /// else has the larger scale; and the sum of two numbers that are not
    /// negative is not negative. Neither conversion can fail on a decimal in
    /// range.
    #[verifier::external_body]
    fn sum_outside(a: &Decimal, b: &Decimal) -> (r: Option<Decimal>)
        ensures
            Self::is_pair(
                r,
                decimal_sum(
                    a.spec_mantissa() as int,
                    a.spec_scale() as int,
                    b.spec_mantissa() as int,
                    b.spec_scale() as int,
                ),
            ),
            r matches Some(d) ==> d.in_range(),
            a.adds_exactly(b) ==> r == Some(a.exact_sum(b)),
            a.units() >= 0 && b.units() >= 0 && r is Some ==> r->0.units() >= 0,
    {
        let x = rust_decimal::Decimal::from_i128_with_scale(a.mantissa, a.scale);
        let y = rust_decimal::Decimal::from_i128_with_scale(b.mantissa, b.scale);
        x.checked_add(y).map(|z| Decimal { mantissa: z.mantissa(), scale: z.scale() })
    }

    /// Calls the total order of `rust_decimal::Decimal`, which orders by
    /// numerical value whatever the scales are, and gives -1, 0 or 1.
    #[verifier::external_body]
    fn order_outside(a: &Decimal, b: &Decimal) -> (r: i8)
        ensures
            r == order_of(a.units(), b.units()),
    {
        let x = rust_decimal::Decimal::from_i128_with_scale(a.mantissa, a.scale);
        let y = rust_decimal::Decimal::from_i128_with_scale(b.mantissa, b.scale);
        match x.cmp(&y) {
            std::cmp::Ordering::Less => -1,
            std::cmp::Ordering::Equal => 0,
            std::cmp::Ordering::Greater => 1,
        }
    }

    /// Checked addition: `None` where the sum overflows. Where no rounding
    /// is needed the sum is there and exact: the other number where one of
    /// the two is zero, else the sum of the mantissas at the larger scale.
    pub fn checked_add(&self, other: &Decimal) -> (r: Option<Decimal>)
        ensures
            r == self.sum_with(other),
            r matches Some(d) ==> d.in_range(),
            self.adds_exactly(other) ==> r == Some(self.exact_sum(other)),
            self.adds_exactly(other) ==> r is Some && r->0.units() == self.units() + other.units(),
            self.units() >= 0 && other.units() >= 0 && r is Some ==> r->0.units() >= 0,
    {
        proof {
            use_type_invariant(self);
            use_type_invariant(other);
            if self.adds_exactly(other) {
                Self::lemma_exact_sum(*self, *other);
            }
        }
        Self::sum_outside(self, other)
    }

    /// Whether the value is below zero.
    pub fn is_negative(&self) -> (r: bool)
        ensures
            r == (self.units() < 0),
    {
        proof {
            use_type_invariant(self);
            Self::lemma_sign(*self);
        }
        self.mantissa < 0
    }

    /// Whether the value is below that of `other`.
    pub fn lt(&self, other: &Decimal) -> (r: bool)
        ensures
            r == (self.units() < other.units()),
    {
        Self::order_outside(self, other) < 0
    }

    /// Whether the value is above that of `other`.
    pub fn gt(&self, other: &Decimal) -> (r: bool)
        ensures
            r == (self.units() > other.units()),
    {
        Self::order_outside(self, other) > 0
    }

    /// Whether the two values are equal, whatever their scales.
    pub fn value_eq(&self, other: &Decimal) -> (r: bool)
        ensures
            r == (self.units() == other.units()),
    {
        Self::order_outside(self, other) == 0
    }
}

impl PartialEq for Decimal {
    /// Equality of values: `1.0` equals `1.00`.
    fn eq(&self, other: &Decimal) -> (r: bool) {
        self.value_eq(other)
    }
}

impl vstd::std_specs::cmp::PartialEqSpecImpl for Decimal {
    open spec fn obeys_eq_spec() -> bool {
        true
    }

    open spec fn eq_spec(&self, other: &Decimal) -> bool {
        self.units() == other.units()
    }
}

} // verus!
