use vstd::prelude::*;

use crate::bound::Bound;
use crate::surface::Point;

verus! {

/// An axis-aligned box, one interval per axis. Boxes with a crossed axis
/// (lower above upper) are represented by the sentinel `empty()`:
/// lower corner at +inf and upper corner at -inf on every axis.
#[derive(PartialEq, Clone, Copy, Debug)]
pub struct BoundingBox {
    pub lower_left_corner: [Bound; 3],
    pub upper_right_corner: [Bound; 3],
}

impl BoundingBox {
    pub open spec fn lower(self, axis: int) -> Bound {
        self.lower_left_corner[axis]
    }

    pub open spec fn upper(self, axis: int) -> Bound {
        self.upper_right_corner[axis]
    }

    /// `p` lies in the box, bounds included.
    pub open spec fn encloses(self, p: Point) -> bool {
        &&& !Bound::Finite(p.0 as i64).precedes(self.lower(0))
        &&& !self.upper(0).precedes(Bound::Finite(p.0 as i64))
        &&& !Bound::Finite(p.1 as i64).precedes(self.lower(1))
        &&& !self.upper(1).precedes(Bound::Finite(p.1 as i64))
        &&& !Bound::Finite(p.2 as i64).precedes(self.lower(2))
        &&& !self.upper(2).precedes(Bound::Finite(p.2 as i64))
    }

    /// Every bound is an infinity or a finite value of the range that
    /// surfaces produce.
    pub open spec fn wf(self) -> bool {
        forall|i: int| 0 <= i < 3 ==> #[trigger] self.lower(i).in_range() && self.upper(i).in_range()
    }

    pub open spec fn spec_unbounded() -> BoundingBox {
        BoundingBox {
            lower_left_corner: [Bound::NegInf, Bound::NegInf, Bound::NegInf],
            upper_right_corner: [Bound::PosInf, Bound::PosInf, Bound::PosInf],
        }
    }

    pub open spec fn spec_empty() -> BoundingBox {
        BoundingBox {
            lower_left_corner: [Bound::PosInf, Bound::PosInf, Bound::PosInf],
            upper_right_corner: [Bound::NegInf, Bound::NegInf, Bound::NegInf],
        }
    }

    /// Some axis has its upper bound strictly below its lower bound.
    pub open spec fn is_crossed(self) -> bool {
        self.upper(0).precedes(self.lower(0)) || self.upper(1).precedes(self.lower(1))
            || self.upper(2).precedes(self.lower(2))
    }

    /// The box itself, or the empty sentinel where an axis is crossed.
    pub open spec fn normalized(self) -> BoundingBox {
        if self.is_crossed() {
            BoundingBox::spec_empty()
        } else {
            self
        }
    }

    /// Per axis, the larger lower bound and the smaller upper bound.
    pub open spec fn spec_tighten(self, other: BoundingBox) -> BoundingBox {
        BoundingBox {
            lower_left_corner: [
                self.lower(0).spec_max(other.lower(0)),
                self.lower(1).spec_max(other.lower(1)),
                self.lower(2).spec_max(other.lower(2)),
            ],
            upper_right_corner: [
                self.upper(0).spec_min(other.upper(0)),
                self.upper(1).spec_min(other.upper(1)),
                self.upper(2).spec_min(other.upper(2)),
            ],
        }
    }

    /// Per axis, the smaller lower bound and the larger upper bound.
    pub open spec fn spec_loosen(self, other: BoundingBox) -> BoundingBox {
        BoundingBox {
            lower_left_corner: [
                self.lower(0).spec_min(other.lower(0)),
                self.lower(1).spec_min(other.lower(1)),
                self.lower(2).spec_min(other.lower(2)),
            ],
            upper_right_corner: [
                self.upper(0).spec_max(other.upper(0)),
                self.upper(1).spec_max(other.upper(1)),
                self.upper(2).spec_max(other.upper(2)),
            ],
        }
    }

    pub fn new(lower_left_corner: [Bound; 3], upper_right_corner: [Bound; 3]) -> (r: BoundingBox)
        ensures
            r.lower_left_corner == lower_left_corner,
            r.upper_right_corner == upper_right_corner,
    {
        BoundingBox { lower_left_corner, upper_right_corner }
    }

    /// The box that constrains no axis.
    pub fn unbounded() -> (r: BoundingBox)
        ensures
            r == BoundingBox::spec_unbounded(),
    {
        BoundingBox {
            lower_left_corner: [Bound::NegInf, Bound::NegInf, Bound::NegInf],
            upper_right_corner: [Bound::PosInf, Bound::PosInf, Bound::PosInf],
        }
    }

    /// The sentinel that stands for a box with no points.
    pub fn empty() -> (r: BoundingBox)
        ensures
            r == BoundingBox::spec_empty(),
    {
        BoundingBox {
            lower_left_corner: [Bound::PosInf, Bound::PosInf, Bound::PosInf],
            upper_right_corner: [Bound::NegInf, Bound::NegInf, Bound::NegInf],
        }
    }

    pub fn is_empty(&self) -> (r: bool)
        ensures
            r == (*self == BoundingBox::spec_empty()),
    {
        let l = self.lower_left_corner;
        let u = self.upper_right_corner;
        let r = l[0] == Bound::PosInf && l[1] == Bound::PosInf && l[2] == Bound::PosInf
            && u[0] == Bound::NegInf && u[1] == Bound::NegInf && u[2] == Bound::NegInf;
        proof {
            if r {
                assert(l =~= BoundingBox::spec_empty().lower_left_corner);
                assert(u =~= BoundingBox::spec_empty().upper_right_corner);
            }
        }
        r
    }

    pub fn normalize(self) -> (r: BoundingBox)
        ensures
            r == self.normalized(),
    {
        let crossed = self.upper_right_corner[0].is_less(&self.lower_left_corner[0])
            || self.upper_right_corner[1].is_less(&self.lower_left_corner[1])
            || self.upper_right_corner[2].is_less(&self.lower_left_corner[2]);
        if crossed {
            BoundingBox::empty()
        } else {
            self
        }
    }

    pub fn tighten(&self, other: &BoundingBox) -> (r: BoundingBox)
        ensures
            r == self.spec_tighten(*other),
    {
        BoundingBox {
            lower_left_corner: [
                self.lower_left_corner[0].max(other.lower_left_corner[0]),
                self.lower_left_corner[1].max(other.lower_left_corner[1]),
                self.lower_left_corner[2].max(other.lower_left_corner[2]),
            ],
            upper_right_corner: [
                self.upper_right_corner[0].min(other.upper_right_corner[0]),
                self.upper_right_corner[1].min(other.upper_right_corner[1]),
                self.upper_right_corner[2].min(other.upper_right_corner[2]),
            ],
        }
    }

    pub fn loosen(&self, other: &BoundingBox) -> (r: BoundingBox)
        ensures
            r == self.spec_loosen(*other),
    {
        BoundingBox {
            lower_left_corner: [
                self.lower_left_corner[0].min(other.lower_left_corner[0]),
                self.lower_left_corner[1].min(other.lower_left_corner[1]),
                self.lower_left_corner[2].min(other.lower_left_corner[2]),
            ],
            upper_right_corner: [
                self.upper_right_corner[0].max(other.upper_right_corner[0]),
                self.upper_right_corner[1].max(other.upper_right_corner[1]),
                self.upper_right_corner[2].max(other.upper_right_corner[2]),
            ],
        }
    }

    /// Twice the midpoint of the axis interval, which stays an integer:
    /// the sum of its two bounds, `None` where one is -inf and the other +inf.
    pub fn center_doubled(&self, axis: usize) -> (r: Option<Bound>)
        requires
            self.wf(),
            axis < 3,
        ensures
            r == self.lower(axis as int).spec_sum(self.upper(axis as int)),
    {
        let lower = self.lower_left_corner[axis];
        let upper = self.upper_right_corner[axis];
        assert(self.lower(axis as int).in_range() && self.upper(axis as int).in_range());
        lower.sum(upper)
    }

    /// Upper bound minus lower bound on the axis; `None` where that is undefined.
    pub fn width(&self, axis: usize) -> (r: Option<Bound>)
        requires
            self.wf(),
            axis < 3,
        ensures
            r == self.upper(axis as int).spec_sum(self.lower(axis as int).spec_neg()),
    {
        let lower = self.lower_left_corner[axis];
        let upper = self.upper_right_corner[axis];
        assert(self.lower(axis as int).in_range() && self.upper(axis as int).in_range());
        upper.sum(lower.neg())
    }
}

} // verus!
