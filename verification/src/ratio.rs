//! Exact fractions of unsigned integers.
//!
//! Metrics such as a loss ratio are quotients of counters. They are kept as
//! numerator and denominator so that every threshold test is exact.

use vstd::prelude::*;

verus! {

/// Largest denominator a well-formed ratio may carry: a 64-bit count scaled
/// by one thousand.
pub const MAX_DENOMINATOR: u128 = 18_446_744_073_709_551_615_000;

/// The non-negative rational number `num / den`.
#[derive(Debug, Clone, Copy, PartialEq, Eq, Structural)]
pub struct Ratio {
    pub num: u128,
    pub den: u128,
}

impl Ratio {
    /// The denominator is positive and small enough for threshold tests to
    /// be computed without overflow.
    pub open spec fn wf(self) -> bool {
        0 < self.den <= MAX_DENOMINATOR
    }

    /// `self >= p / q`.
    pub open spec fn at_least(self, p: int, q: int) -> bool {
        self.num * q >= p * self.den
    }

    /// `self <= p / q`.
    pub open spec fn at_most(self, p: int, q: int) -> bool {
        self.num * q <= p * self.den
    }

    /// `self > p / q`.
    pub open spec fn above(self, p: int, q: int) -> bool {
        self.num * q > p * self.den
    }

    /// `self < p / q`.
    pub open spec fn below(self, p: int, q: int) -> bool {
        self.num * q < p * self.den
    }

    /// The value lies in the closed interval from zero to one.
    pub open spec fn is_fraction(self) -> bool {
        self.num <= self.den
    }

    /// The ratio zero.
    pub fn zero() -> (r: Ratio)
        ensures
            r.num == 0,
            r.den == 1,
            r.wf(),
    {
        Ratio { num: 0, den: 1 }
    }

    /// Three-way comparison of `self` with `p / q`: -1, 0 or 1 as `self` is
    /// smaller, equal or larger.
    fn sign_against(&self, p: u16, q: u16) -> (s: i8)
        requires
            self.wf(),
        ensures
            s == -1 || s == 0 || s == 1,
            s == -1 <==> self.below(p as int, q as int),
            s == 0 <==> self.num * q == p * self.den,
            s == 1 <==> self.above(p as int, q as int),
    {
        assert(p * self.den <= 65_535 * MAX_DENOMINATOR) by (nonlinear_arith)
            requires
                p <= 65_535,
                self.den <= MAX_DENOMINATOR,
        ;
        let threshold: u128 = (p as u128) * self.den;
        match self.num.checked_mul(q as u128) {
            Some(scaled) => {
                if scaled < threshold {
                    -1
                } else if scaled == threshold {
                    0
                } else {
                    1
                }
            },
            None => 1,
        }
    }

    /// Tests `self >= p / q`.
    pub fn ge(&self, p: u16, q: u16) -> (r: bool)
        requires
            self.wf(),
        ensures
            r == self.at_least(p as int, q as int),
    {
        self.sign_against(p, q) >= 0
    }

    /// Tests `self <= p / q`.
    pub fn le(&self, p: u16, q: u16) -> (r: bool)
        requires
            self.wf(),
        ensures
            r == self.at_most(p as int, q as int),
    {
        self.sign_against(p, q) <= 0
    }

    /// Tests `self > p / q`.
    pub fn gt(&self, p: u16, q: u16) -> (r: bool)
        requires
            self.wf(),
        ensures
            r == self.above(p as int, q as int),
    {
        self.sign_against(p, q) > 0
    }

    /// Tests `self < p / q`.
    pub fn lt(&self, p: u16, q: u16) -> (r: bool)
        requires
            self.wf(),
        ensures
            r == self.below(p as int, q as int),
    {
        self.sign_against(p, q) < 0
    }
}

} // verus!
