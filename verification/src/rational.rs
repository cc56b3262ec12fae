//! Exact rational arithmetic for beat values.
//!
//! Beat durations are kept as explicit numerator/denominator pairs and only
//! turned into integer millisecond or microsecond counts at the point where
//! a timing primitive consumes them, so no rounding error compounds across
//! the notes of a song. Values are non-negative throughout; a pair is well
//! formed exactly when its denominator is positive.

use vstd::prelude::*;

verus! {

/// A non-negative rational number held as an explicit numerator/denominator
/// pair. The pair is kept exactly as constructed and never reduced, so the
/// fields of every result are pinned down by the operation that made it.
#[derive(Clone, Copy, Debug, PartialEq, Eq, Structural)]
pub struct Rational {
    /// Numerator.
    pub numer: u64,
    /// Denominator; positive in every well-formed value.
    pub denom: u64,
}

/// Ordering of two fractions `n1/d1 <= n2/d2` by cross multiplication,
/// valid whenever both denominators are positive.
pub open spec fn ratio_le(n1: int, d1: int, n2: int, d2: int) -> bool {
    n1 * d2 <= n2 * d1
}

impl Rational {
    /// A rational is well formed when its denominator is positive.
    pub open spec fn wf(self) -> bool {
        self.denom > 0
    }

    /// Mathematical `self <= other`, by cross multiplication.
    pub open spec fn le_spec(self, other: Rational) -> bool {
        ratio_le(self.numer as int, self.denom as int, other.numer as int, other.denom as int)
    }

    /// Build `numer/denom`; the denominator must be positive.
    pub fn new(numer: u64, denom: u64) -> (r: Rational)
        requires
            denom > 0,
        ensures
            r.numer == numer,
            r.denom == denom,
            r.wf(),
    {
        Rational { numer, denom }
    }

    /// The rational zero.
    pub fn zero() -> (r: Rational)
        ensures
            r.numer == 0,
            r.denom == 1,
            r.wf(),
    {
        Rational { numer: 0, denom: 1 }
    }

    /// A whole number of beats.
    pub fn from_integer(n: u64) -> (r: Rational)
        ensures
            r.numer == n,
            r.denom == 1,
            r.wf(),
    {
        Rational { numer: n, denom: 1 }
    }

    /// Truncating conversion to a whole number (values are non-negative,
    /// so truncation is the floor).
    pub fn floor(&self) -> (r: u64)
        requires
            self.wf(),
        ensures
            r == self.numer as int / self.denom as int,
    {
        self.numer / self.denom
    }
}

/// Law: `le_spec` really is the ordering of the represented values — it is
/// reflexive and transitive over well-formed rationals.
pub proof fn lemma_le_spec_is_an_order(a: Rational, b: Rational, c: Rational)
    requires
        a.wf(),
        b.wf(),
        c.wf(),
    ensures
        a.le_spec(a),
        a.le_spec(b) && b.le_spec(c) ==> a.le_spec(c),
{
    if a.le_spec(b) && b.le_spec(c) {
        assert(a.numer * c.denom <= c.numer * a.denom) by (nonlinear_arith)
            requires
                a.numer * b.denom <= b.numer * a.denom,
                b.numer * c.denom <= c.numer * b.denom,
                a.denom > 0,
                b.denom > 0,
                c.denom > 0,
                a.numer >= 0,
                b.numer >= 0,
                c.numer >= 0;
    }
}

} // verus!
