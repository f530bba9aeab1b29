//! Exact rational constants.
//!
//! The runtime representation is `num_rational::BigRational` (arbitrary
//! precision, always kept in lowest terms with a positive denominator).
//! `ratio_model` names the mathematical fraction such a value denotes, so
//! that contracts can speak of exact rational arithmetic: every function
//! that produces a `Rat` pins the model of its result to the canonical
//! (reduced, positive-denominator) form that `num_rational` maintains.
use vstd::prelude::*;

verus! {

/// The mathematical value of a rational constant: the fraction `num / den`.
///
/// Values produced by this module are always canonical: `den > 0` and
/// `gcd(|num|, den) == 1`, matching the representation invariant of
/// `num_rational::Ratio`.
pub struct RatModel {
    pub num: int,
    pub den: int,
}

/// Greatest common divisor (Euclid's algorithm).
pub open spec fn gcd_nat(a: nat, b: nat) -> nat
    decreases b,
{
    if b == 0 {
        a
    } else {
        gcd_nat(b, a % b)
    }
}

/// The model of the integer `n`.
pub open spec fn int_rat(n: int) -> RatModel {
    RatModel { num: n, den: 1 }
}

/// The canonical form of the fraction `n / d` (for `d != 0`): lowest
/// terms, positive denominator, and `0/1` for zero.
pub open spec fn rat_norm(n: int, d: int) -> RatModel {
    let n2: int = if d < 0 {
        -n
    } else {
        n
    };
    let d2: int = if d < 0 {
        -d
    } else {
        d
    };
    if n2 == 0 {
        RatModel { num: 0, den: 1 }
    } else {
        let g = gcd_nat(vstd::math::abs(n2), d2 as nat) as int;
        RatModel { num: n2 / g, den: d2 / g }
    }
}

pub open spec fn rat_add_model(a: RatModel, b: RatModel) -> RatModel {
    rat_norm(a.num * b.den + b.num * a.den, a.den * b.den)
}

pub open spec fn rat_sub_model(a: RatModel, b: RatModel) -> RatModel {
    rat_norm(a.num * b.den - b.num * a.den, a.den * b.den)
}

pub open spec fn rat_mul_model(a: RatModel, b: RatModel) -> RatModel {
    rat_norm(a.num * b.num, a.den * b.den)
}

pub open spec fn rat_div_model(a: RatModel, b: RatModel) -> RatModel {
    rat_norm(a.num * b.den, a.den * b.num)
}

pub open spec fn rat_neg_model(a: RatModel) -> RatModel {
    RatModel { num: -a.num, den: a.den }
}

/// An integer fraction `n / 1` is already canonical.
pub proof fn lemma_norm_int(n: int)
    ensures
        rat_norm(n, 1) == int_rat(n),
{
    if n != 0 {
        let a = vstd::math::abs(n);
        assert(a % 1 == 0) by (nonlinear_arith);
        reveal_with_fuel(gcd_nat, 3);
        assert(gcd_nat(a, 1nat) == 1);
        assert(n / 1int == n);
        assert(1int / 1int == 1);
    }
}

/// Integer fractions add as integers do.
pub proof fn lemma_int_add_model(a: int, b: int)
    ensures
        rat_add_model(int_rat(a), int_rat(b)) == int_rat(a + b),
{
    assert(a * 1 == a && b * 1 == b && 1int * 1int == 1) by (nonlinear_arith);
    lemma_norm_int(a + b);
}

/// Integer fractions multiply as integers do.
pub proof fn lemma_int_mul_model(a: int, b: int)
    ensures
        rat_mul_model(int_rat(a), int_rat(b)) == int_rat(a * b),
{
    assert(1int * 1int == 1) by (nonlinear_arith);
    lemma_norm_int(a * b);
}

/// Dividing the integer `a` by the integer `b` gives the canonical form
/// of the fraction `a / b`.
pub proof fn lemma_int_div_model(a: int, b: int)
    requires
        b != 0,
    ensures
        rat_div_model(int_rat(a), int_rat(b)) == rat_norm(a, b),
{
    assert(a * 1 == a && 1int * b == b) by (nonlinear_arith);
}

#[verifier::external_type_specification]
#[verifier::external_body]
#[verifier::reject_recursive_types(T)]
pub struct ExRatio<T>(num_rational::Ratio<T>);

#[verifier::external_type_specification]
#[verifier::external_body]
pub struct ExBigInt(num_bigint::BigInt);

/// The exact fraction that a `BigRational` stands for. `Ratio` keeps its
/// value in lowest terms with a positive denominator, so this is the
/// canonical `RatModel` of the value; it depends on the value alone.
pub uninterp spec fn ratio_model(r: num_rational::BigRational) -> RatModel;

/// Relies on `BigRational::from_integer`: builds the fraction `n / 1`,
/// which is already canonical.
#[verifier::external_body]
fn ratio_from_i64(n: i64) -> (r: num_rational::BigRational)
    ensures
        ratio_model(r) == int_rat(n as int),
{
    num_rational::BigRational::from_integer(n.into())
}

/// Relies on `BigRational::new`: builds `n / d` reduced to lowest terms
/// with a positive denominator (it panics on `d == 0`, which the
/// precondition rules out).
#[verifier::external_body]
fn ratio_new(n: i64, d: i64) -> (r: num_rational::BigRational)
    requires
        d != 0,
    ensures
        ratio_model(r) == rat_norm(n as int, d as int),
{
    num_rational::BigRational::new(n.into(), d.into())
}

/// Relies on `Add for Ratio`: exact sum, returned in canonical form.
#[verifier::external_body]
fn ratio_add(a: &num_rational::BigRational, b: &num_rational::BigRational) -> (r:
    num_rational::BigRational)
    ensures
        ratio_model(r) == rat_add_model(ratio_model(*a), ratio_model(*b)),
{
    a + b
}

/// Relies on `Sub for Ratio`: exact difference, returned in canonical form.
#[verifier::external_body]
fn ratio_sub(a: &num_rational::BigRational, b: &num_rational::BigRational) -> (r:
    num_rational::BigRational)
    ensures
        ratio_model(r) == rat_sub_model(ratio_model(*a), ratio_model(*b)),
{
    a - b
}

/// Relies on `Mul for Ratio`: exact product, returned in canonical form.
#[verifier::external_body]
fn ratio_mul(a: &num_rational::BigRational, b: &num_rational::BigRational) -> (r:
    num_rational::BigRational)
    ensures
        ratio_model(r) == rat_mul_model(ratio_model(*a), ratio_model(*b)),
{
    a * b
}

/// Relies on `Div for Ratio`: exact quotient, returned in canonical form
/// (it panics on a zero divisor, which the precondition rules out).
#[verifier::external_body]
fn ratio_div(a: &num_rational::BigRational, b: &num_rational::BigRational) -> (r:
    num_rational::BigRational)
    requires
        ratio_model(*b).num != 0,
    ensures
        ratio_model(r) == rat_div_model(ratio_model(*a), ratio_model(*b)),
{
    a / b
}

/// Relies on `Neg for Ratio`: negates the numerator, which keeps the
/// canonical form.
#[verifier::external_body]
fn ratio_neg(a: &num_rational::BigRational) -> (r: num_rational::BigRational)
    ensures
        ratio_model(r) == rat_neg_model(ratio_model(*a)),
{
    -a
}

/// Relies on `Zero::is_zero for Ratio`: true exactly when the numerator
/// is zero.
#[verifier::external_body]
fn ratio_is_zero(a: &num_rational::BigRational) -> (r: bool)
    ensures
        r == (ratio_model(*a).num == 0),
{
    num_traits::Zero::is_zero(a)
}

/// Relies on `Signed::is_negative for Ratio`: with the denominator kept
/// positive, true exactly when the numerator is negative.
#[verifier::external_body]
fn ratio_is_negative(a: &num_rational::BigRational) -> (r: bool)
    ensures
        r == (ratio_model(*a).num < 0),
{
    num_traits::Signed::is_negative(a)
}

/// Relies on `PartialEq for Ratio` (comparison of the exact values): on
/// canonical representations it coincides with equality of the models.
#[verifier::external_body]
fn ratio_eq(a: &num_rational::BigRational, b: &num_rational::BigRational) -> (r: bool)
    ensures
        r == (ratio_model(*a) == ratio_model(*b)),
{
    a == b
}

/// Relies on `Clone for Ratio`: an exact copy of the same value.
#[verifier::external_body]
fn ratio_clone(a: &num_rational::BigRational) -> (r: num_rational::BigRational)
    ensures
        ratio_model(r) == ratio_model(*a),
{
    a.clone()
}

/// An exact rational constant.
pub struct Rat {
    rep: num_rational::BigRational,
}

impl View for Rat {
    type V = RatModel;

    closed spec fn view(&self) -> RatModel {
        ratio_model(self.rep)
    }
}

impl Rat {
    /// The exact sum of the two values.
    pub fn add(a: &Rat, b: &Rat) -> (r: Rat)
        ensures
            r@ == rat_add_model(a@, b@),
    {
        Rat { rep: ratio_add(&a.rep, &b.rep) }
    }

    /// The exact difference of the two values.
    pub fn sub(a: &Rat, b: &Rat) -> (r: Rat)
        ensures
            r@ == rat_sub_model(a@, b@),
    {
        Rat { rep: ratio_sub(&a.rep, &b.rep) }
    }

    /// The exact product of the two values.
    pub fn mul(a: &Rat, b: &Rat) -> (r: Rat)
        ensures
            r@ == rat_mul_model(a@, b@),
    {
        Rat { rep: ratio_mul(&a.rep, &b.rep) }
    }

    /// The exact quotient of the two values; the divisor must not be zero.
    pub fn div(a: &Rat, b: &Rat) -> (r: Rat)
        requires
            b@.num != 0,
        ensures
            r@ == rat_div_model(a@, b@),
    {
        Rat { rep: ratio_div(&a.rep, &b.rep) }
    }

    /// The exact negation of the value.
    pub fn neg(a: &Rat) -> (r: Rat)
        ensures
            r@ == rat_neg_model(a@),
    {
        Rat { rep: ratio_neg(&a.rep) }
    }

    /// Whether the value is exactly zero.
    pub fn is_zero(&self) -> (r: bool)
        ensures
            r == (self@.num == 0),
    {
        ratio_is_zero(&self.rep)
    }

    /// Whether the value is strictly negative.
    pub fn is_negative(&self) -> (r: bool)
        ensures
            r == (self@.num < 0),
    {
        ratio_is_negative(&self.rep)
    }

    /// Whether the two values are equal.
    pub fn eq_value(&self, other: &Rat) -> (r: bool)
        ensures
            r == (self@ == other@),
    {
        ratio_eq(&self.rep, &other.rep)
    }

    /// The integer `n` as a rational constant.
    pub fn of_i64(n: i64) -> (r: Rat)
        ensures
            r@ == int_rat(n as int),
    {
        Rat { rep: ratio_from_i64(n) }
    }

    /// The fraction `n / d`, rejected when the denominator is zero.
    pub fn of_frac(n: i64, d: i64) -> (r: Option<Rat>)
        ensures
            d != 0 ==> (r matches Some(v) && v@ == rat_norm(n as int, d as int)),
            d == 0 ==> r is None,
    {
        if d == 0 {
            None
        } else {
            Some(Rat { rep: ratio_new(n, d) })
        }
    }
}

impl Clone for Rat {
    /// An exact copy of the same value.
    fn clone(&self) -> (r: Self)
        ensures
            r@ == self@,
    {
        Rat { rep: ratio_clone(&self.rep) }
    }
}

} // verus!
