use vstd::prelude::*;

verus! {

/// One end of an axis interval: a finite coordinate or one of the two infinities.
#[derive(PartialEq, Eq, Structural, Clone, Copy, Debug)]
pub enum Bound {
    NegInf,
    Finite(i64),
    PosInf,
}

/// Largest magnitude of a finite bound that boxes are built from: every
/// coordinate that the library handles fits in `i32`, and a sphere adds its
/// radius to its center.
pub const MAX_FINITE: i64 = 8589934592;

impl Bound {
    /// Strict order of the extended integers: -inf < every finite value < +inf.
    pub open spec fn precedes(self, other: Bound) -> bool {
        match (self, other) {
            (Bound::NegInf, Bound::NegInf) => false,
            (Bound::NegInf, _) => true,
            (Bound::Finite(a), Bound::Finite(b)) => a < b,
            (Bound::Finite(_), Bound::PosInf) => true,
            _ => false,
        }
    }

    pub open spec fn spec_min(self, other: Bound) -> Bound {
        if other.precedes(self) {
            other
        } else {
            self
        }
    }

    pub open spec fn spec_max(self, other: Bound) -> Bound {
        if self.precedes(other) {
            other
        } else {
            self
        }
    }

    /// The value is finite and no larger in magnitude than `MAX_FINITE`,
    /// or it is infinite.
    pub open spec fn in_range(self) -> bool {
        match self {
            Bound::Finite(v) => -MAX_FINITE <= v <= MAX_FINITE,
            _ => true,
        }
    }

    /// The extended sum; `None` where it is undefined (an infinity of each sign).
    pub open spec fn spec_sum(self, other: Bound) -> Option<Bound> {
        match (self, other) {
            (Bound::Finite(a), Bound::Finite(b)) => Some(Bound::Finite((a + b) as i64)),
            (Bound::NegInf, Bound::PosInf) => None,
            (Bound::PosInf, Bound::NegInf) => None,
            (Bound::NegInf, _) => Some(Bound::NegInf),
            (_, Bound::NegInf) => Some(Bound::NegInf),
            _ => Some(Bound::PosInf),
        }
    }

    pub open spec fn spec_neg(self) -> Bound {
        match self {
            Bound::NegInf => Bound::PosInf,
            Bound::Finite(v) => Bound::Finite((-v) as i64),
            Bound::PosInf => Bound::NegInf,
        }
    }

    pub fn is_less(&self, other: &Bound) -> (r: bool)
        ensures
            r == self.precedes(*other),
    {
        match (self, other) {
            (Bound::NegInf, Bound::NegInf) => false,
            (Bound::NegInf, _) => true,
            (Bound::Finite(a), Bound::Finite(b)) => *a < *b,
            (Bound::Finite(_), Bound::PosInf) => true,
            _ => false,
        }
    }

    pub fn min(self, other: Bound) -> (r: Bound)
        ensures
            r == self.spec_min(other),
    {
        if other.is_less(&self) {
            other
        } else {
            self
        }
    }

    pub fn max(self, other: Bound) -> (r: Bound)
        ensures
            r == self.spec_max(other),
    {
        if self.is_less(&other) {
            other
        } else {
            self
        }
    }

    pub fn neg(self) -> (r: Bound)
        requires
            self.in_range(),
        ensures
            r == self.spec_neg(),
            r.in_range(),
    {
        match self {
            Bound::NegInf => Bound::PosInf,
            Bound::Finite(v) => Bound::Finite(-v),
            Bound::PosInf => Bound::NegInf,
        }
    }

    pub fn sum(self, other: Bound) -> (r: Option<Bound>)
        requires
            self.in_range(),
            other.in_range(),
        ensures
            r == self.spec_sum(other),
    {
        match (self, other) {
            (Bound::Finite(a), Bound::Finite(b)) => Some(Bound::Finite(a + b)),
            (Bound::NegInf, Bound::PosInf) => None,
            (Bound::PosInf, Bound::NegInf) => None,
            (Bound::NegInf, _) => Some(Bound::NegInf),
            (_, Bound::NegInf) => Some(Bound::NegInf),
            _ => Some(Bound::PosInf),
        }
    }
}

} // verus!
