use vstd::prelude::*;

verus! {

/// The numeric domain a filter works in.
///
/// Each operation is a function of its arguments alone: its result is named
/// by the matching spec function, and nothing more is claimed of it. Filters
/// combine samples only through these operations, in a fixed order, so what
/// a filter computes is stated exactly in terms of these names.
pub trait Sample: Copy + Sized {
    spec fn spec_zero() -> Self;

    spec fn spec_one() -> Self;

    spec fn spec_plus(self, other: Self) -> Self;

    spec fn spec_minus(self, other: Self) -> Self;

    spec fn spec_times(self, other: Self) -> Self;

    spec fn spec_divided_by(self, other: Self) -> Self;

    spec fn spec_less_than(self, other: Self) -> bool;

    spec fn spec_at_most(self, other: Self) -> bool;

    /// The additive identity: initial history and accumulator value.
    fn zero() -> (r: Self)
        ensures
            r == Self::spec_zero(),
    ;

    /// The multiplicative identity: implicit leading feedback coefficient.
    fn one() -> (r: Self)
        ensures
            r == Self::spec_one(),
    ;

    fn plus(self, other: Self) -> (r: Self)
        ensures
            r == self.spec_plus(other),
    ;

    fn minus(self, other: Self) -> (r: Self)
        ensures
            r == self.spec_minus(other),
    ;

    fn times(self, other: Self) -> (r: Self)
        ensures
            r == self.spec_times(other),
    ;

    fn divided_by(self, other: Self) -> (r: Self)
        ensures
            r == self.spec_divided_by(other),
    ;

    /// Strict ordering; false when the two are unordered.
    fn less_than(self, other: Self) -> (r: bool)
        ensures
            r == self.spec_less_than(other),
    ;

    /// Non-strict ordering; false when the two are unordered.
    fn at_most(self, other: Self) -> (r: bool)
        ensures
            r == self.spec_at_most(other),
    ;
}

/// A sample type with the functions filter design needs, each again named
/// by a spec function of its arguments.
///
/// Design formulas are written once over these operations; the numeric
/// constants they use are built with `from_i32` or are `pi`, `tau` and `e`.
pub trait Real: Sample {
    spec fn spec_from_i32(n: i32) -> Self;

    spec fn spec_from_u32(n: u32) -> Self;

    spec fn spec_pi() -> Self;

    spec fn spec_tau() -> Self;

    spec fn spec_e() -> Self;

    spec fn spec_negated(self) -> Self;

    spec fn spec_sqrt(self) -> Self;

    spec fn spec_sin(self) -> Self;

    spec fn spec_cos(self) -> Self;

    spec fn spec_tan(self) -> Self;

    spec fn spec_sinh(self) -> Self;

    spec fn spec_powf(self, exponent: Self) -> Self;

    spec fn spec_log(self, base: Self) -> Self;

    fn from_i32(n: i32) -> (r: Self)
        ensures
            r == Self::spec_from_i32(n),
    ;

    fn from_u32(n: u32) -> (r: Self)
        ensures
            r == Self::spec_from_u32(n),
    ;

    /// The ratio of a circle's circumference to its diameter.
    fn pi() -> (r: Self)
        ensures
            r == Self::spec_pi(),
    ;

    /// A full turn in radians.
    fn tau() -> (r: Self)
        ensures
            r == Self::spec_tau(),
    ;

    /// The base of the natural logarithm.
    fn e() -> (r: Self)
        ensures
            r == Self::spec_e(),
    ;

    fn negated(self) -> (r: Self)
        ensures
            r == self.spec_negated(),
    ;

    fn sqrt(self) -> (r: Self)
        ensures
            r == self.spec_sqrt(),
    ;

    fn sin(self) -> (r: Self)
        ensures
            r == self.spec_sin(),
    ;

    fn cos(self) -> (r: Self)
        ensures
            r == self.spec_cos(),
    ;

    fn tan(self) -> (r: Self)
        ensures
            r == self.spec_tan(),
    ;

    fn sinh(self) -> (r: Self)
        ensures
            r == self.spec_sinh(),
    ;

    /// `self` raised to the power `exponent`.
    fn powf(self, exponent: Self) -> (r: Self)
        ensures
            r == self.spec_powf(exponent),
    ;

    /// The logarithm of `self` in `base`.
    fn log(self, base: Self) -> (r: Self)
        ensures
            r == self.spec_log(base),
    ;
}

} // verus!
