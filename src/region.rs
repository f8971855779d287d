use std::sync::Arc;
use vstd::prelude::*;

use crate::bound::Bound;
use crate::bounding_box::BoundingBox;
use crate::surface::{Point, Side, Surface, SurfaceKind};

verus! {

/// One side of a surface: `Above` where its implicit function is positive,
/// `Below` where it is negative. A point on the surface lies on neither.
pub enum HalfspaceType {
    Above(Arc<Surface>),
    Below(Arc<Surface>),
}

/// A boolean expression over halfspaces. Operands are shared, never copied.
pub enum RegionExpr {
    Halfspace(HalfspaceType),
    Union(Arc<RegionExpr>, Arc<RegionExpr>),
    Intersection(Arc<RegionExpr>, Arc<RegionExpr>),
    Complement(Arc<RegionExpr>),
}

/// Relies on `Arc::clone`: the new handle refers to the same value.
#[verifier::external_body]
fn share<T>(a: &Arc<T>) -> (r: Arc<T>)
    ensures
        r == *a,
{
    a.clone()
}

/// The box that an axis-aligned plane contributes: a lower bound at `d` on
/// `axis` for the side above, an upper bound there for the side below.
pub open spec fn plane_box(axis: int, above: bool, d: i32) -> BoundingBox {
    let at = Bound::Finite(d as i64);
    BoundingBox {
        lower_left_corner: [
            if above && axis == 0 { at } else { Bound::NegInf },
            if above && axis == 1 { at } else { Bound::NegInf },
            if above && axis == 2 { at } else { Bound::NegInf },
        ],
        upper_right_corner: [
            if !above && axis == 0 { at } else { Bound::PosInf },
            if !above && axis == 1 { at } else { Bound::PosInf },
            if !above && axis == 2 { at } else { Bound::PosInf },
        ],
    }
}

/// The box that either side of a surface contributes before normalizing:
/// a plane with normal (1,0,0), (0,1,0) or (0,0,1) bounds its axis; any other
/// plane and every cylinder bound nothing; a sphere gives `center ± radius`
/// on every axis, on either side. For the outside of a sphere, which is
/// unbounded, this box is a chosen policy rather than an enclosure. That a
/// plane of any other normal bounds nothing is a known gap in precision.
pub open spec fn surface_box(s: Surface, above: bool) -> BoundingBox {
    match s.kind {
        SurfaceKind::Plane { a, b, c, d } => if a == 1 && b == 0 && c == 0 {
            plane_box(0, above, d)
        } else if a == 0 && b == 1 && c == 0 {
            plane_box(1, above, d)
        } else if a == 0 && b == 0 && c == 1 {
            plane_box(2, above, d)
        } else {
            BoundingBox::spec_unbounded()
        },
        SurfaceKind::Sphere { x0, y0, z0, radius } => BoundingBox {
            lower_left_corner: [
                Bound::Finite((x0 - radius) as i64),
                Bound::Finite((y0 - radius) as i64),
                Bound::Finite((z0 - radius) as i64),
            ],
            upper_right_corner: [
                Bound::Finite((x0 + radius) as i64),
                Bound::Finite((y0 + radius) as i64),
                Bound::Finite((z0 + radius) as i64),
            ],
        },
        SurfaceKind::Cylinder { .. } => BoundingBox::spec_unbounded(),
    }
}

fn plane_box_of(axis: usize, above: bool, d: i32) -> (r: BoundingBox)
    requires
        axis < 3,
    ensures
        r == plane_box(axis as int, above, d),
{
    let at = Bound::Finite(d as i64);
    BoundingBox {
        lower_left_corner: [
            if above && axis == 0 { at } else { Bound::NegInf },
            if above && axis == 1 { at } else { Bound::NegInf },
            if above && axis == 2 { at } else { Bound::NegInf },
        ],
        upper_right_corner: [
            if !above && axis == 0 { at } else { Bound::PosInf },
            if !above && axis == 1 { at } else { Bound::PosInf },
            if !above && axis == 2 { at } else { Bound::PosInf },
        ],
    }
}

fn surface_box_of(s: &Surface, above: bool) -> (r: BoundingBox)
    ensures
        r == surface_box(*s, above),
        r.wf(),
{
    match s.kind {
        SurfaceKind::Plane { a, b, c, d } => if a == 1 && b == 0 && c == 0 {
            plane_box_of(0, above, d)
        } else if a == 0 && b == 1 && c == 0 {
            plane_box_of(1, above, d)
        } else if a == 0 && b == 0 && c == 1 {
            plane_box_of(2, above, d)
        } else {
            BoundingBox::unbounded()
        },
        SurfaceKind::Sphere { x0, y0, z0, radius } => {
            let r = radius as i64;
            BoundingBox {
                lower_left_corner: [
                    Bound::Finite(x0 as i64 - r),
                    Bound::Finite(y0 as i64 - r),
                    Bound::Finite(z0 as i64 - r),
                ],
                upper_right_corner: [
                    Bound::Finite(x0 as i64 + r),
                    Bound::Finite(y0 as i64 + r),
                    Bound::Finite(z0 as i64 + r),
                ],
            }
        },
        SurfaceKind::Cylinder { .. } => BoundingBox::unbounded(),
    }
}

proof fn lemma_combined_wf(x: BoundingBox, y: BoundingBox)
    requires
        x.wf(),
        y.wf(),
    ensures
        x.spec_tighten(y).wf(),
        x.spec_loosen(y).wf(),
        x.normalized().wf(),
{
    assert(x.lower(0).in_range() && x.lower(1).in_range() && x.lower(2).in_range());
    assert(x.upper(0).in_range() && x.upper(1).in_range() && x.upper(2).in_range());
    assert(y.lower(0).in_range() && y.lower(1).in_range() && y.lower(2).in_range());
    assert(y.upper(0).in_range() && y.upper(1).in_range() && y.upper(2).in_range());
}

impl HalfspaceType {
    pub open spec fn holds(self, p: Point) -> bool {
        match self {
            HalfspaceType::Above(s) => s.side_at(p) == Side::Positive,
            HalfspaceType::Below(s) => s.side_at(p) == Side::Negative,
        }
    }

    pub open spec fn spec_box(self) -> BoundingBox {
        match self {
            HalfspaceType::Above(s) => surface_box(*s, true),
            HalfspaceType::Below(s) => surface_box(*s, false),
        }
    }

    pub fn bounding_box(&self) -> (r: BoundingBox)
        ensures
            r == self.spec_box().normalized(),
            r.wf(),
    {
        let raw = match self {
            HalfspaceType::Above(s) => surface_box_of(s, true),
            HalfspaceType::Below(s) => surface_box_of(s, false),
        };
        proof {
            lemma_combined_wf(raw, raw);
        }
        raw.normalize()
    }
}

impl Clone for HalfspaceType {
    fn clone(&self) -> (r: HalfspaceType)
        ensures
            r == *self,
    {
        match self {
            HalfspaceType::Above(s) => HalfspaceType::Above(share(s)),
            HalfspaceType::Below(s) => HalfspaceType::Below(share(s)),
        }
    }
}

impl RegionExpr {
    /// Whether `p` lies in the region.
    pub open spec fn holds(&self, p: Point) -> bool
        decreases self,
    {
        match self {
            RegionExpr::Halfspace(h) => h.holds(p),
            RegionExpr::Union(a, b) => a.holds(p) || b.holds(p),
            RegionExpr::Intersection(a, b) => a.holds(p) && b.holds(p),
            RegionExpr::Complement(a) => !a.holds(p),
        }
    }

    /// The box inferred for the region, folded bottom-up: intersections
    /// tighten, unions loosen, a complement bounds nothing, and every node's
    /// box is normalized, so that a crossed axis becomes the empty sentinel.
    pub open spec fn spec_box(&self) -> BoundingBox
        decreases self,
    {
        match self {
            RegionExpr::Halfspace(h) => h.spec_box().normalized(),
            RegionExpr::Union(a, b) => a.spec_box().spec_loosen(b.spec_box()).normalized(),
            RegionExpr::Intersection(a, b) => a.spec_box().spec_tighten(b.spec_box()).normalized(),
            RegionExpr::Complement(_) => BoundingBox::spec_unbounded(),
        }
    }

    /// No halfspace outside a sphere occurs in the region except under a
    /// complement. The box of such a halfspace is the sphere's own box, which
    /// does not enclose the (unbounded) outside.
    pub open spec fn no_sphere_exterior(&self) -> bool
        decreases self,
    {
        match self {
            RegionExpr::Halfspace(HalfspaceType::Above(s)) => !(s.kind is Sphere),
            RegionExpr::Halfspace(HalfspaceType::Below(_)) => true,
            RegionExpr::Union(a, b) => a.no_sphere_exterior() && b.no_sphere_exterior(),
            RegionExpr::Intersection(a, b) => a.no_sphere_exterior() && b.no_sphere_exterior(),
            RegionExpr::Complement(_) => true,
        }
    }

    pub fn evaluate_contains(&self, p: Point) -> (r: bool)
        ensures
            r == self.holds(p),
        decreases self,
    {
        match self {
            RegionExpr::Halfspace(h) => match h {
                HalfspaceType::Above(s) => s.side(p) == Side::Positive,
                HalfspaceType::Below(s) => s.side(p) == Side::Negative,
            },
            RegionExpr::Union(a, b) => a.evaluate_contains(p) || b.evaluate_contains(p),
            RegionExpr::Intersection(a, b) => a.evaluate_contains(p) && b.evaluate_contains(p),
            RegionExpr::Complement(a) => !a.evaluate_contains(p),
        }
    }

    /// The box inferred for the region by one bottom-up fold.
    pub fn bounding_box(&self) -> (r: BoundingBox)
        ensures
            r == self.spec_box(),
            r.wf(),
        decreases self,
    {
        match self {
            RegionExpr::Halfspace(h) => h.bounding_box(),
            RegionExpr::Union(a, b) => {
                let x = a.bounding_box();
                let y = b.bounding_box();
                let raw = x.loosen(&y);
                proof {
                    lemma_combined_wf(x, y);
                    lemma_combined_wf(raw, raw);
                }
                raw.normalize()
            },
            RegionExpr::Intersection(a, b) => {
                let x = a.bounding_box();
                let y = b.bounding_box();
                let raw = x.tighten(&y);
                proof {
                    lemma_combined_wf(x, y);
                    lemma_combined_wf(raw, raw);
                }
                raw.normalize()
            },
            RegionExpr::Complement(_) => BoundingBox::unbounded(),
        }
    }
}

impl Clone for RegionExpr {
    fn clone(&self) -> (r: RegionExpr)
        ensures
            r == *self,
    {
        match self {
            RegionExpr::Halfspace(h) => RegionExpr::Halfspace(h.clone()),
            RegionExpr::Union(a, b) => RegionExpr::Union(share(a), share(b)),
            RegionExpr::Intersection(a, b) => RegionExpr::Intersection(share(a), share(b)),
            RegionExpr::Complement(a) => RegionExpr::Complement(share(a)),
        }
    }
}

/// A region: a boolean expression over halfspaces, queried for containment
/// and for a bounding box.
pub struct Region {
    pub expr: RegionExpr,
}

impl Clone for Region {
    fn clone(&self) -> (r: Region)
        ensures
            r == *self,
    {
        Region { expr: self.expr.clone() }
    }
}

impl Region {
    /// Whether `p` lies in the region.
    pub open spec fn holds(self, p: Point) -> bool {
        self.expr.holds(p)
    }

    pub open spec fn spec_box(self) -> BoundingBox {
        self.expr.spec_box()
    }

    /// `self` is the union of `a` and `b`, in that order.
    pub open spec fn is_union_of(self, a: Region, b: Region) -> bool {
        self.expr matches RegionExpr::Union(x, y) && *x == a.expr && *y == b.expr
    }

    /// `self` is the intersection of `a` and `b`, in that order.
    pub open spec fn is_intersection_of(self, a: Region, b: Region) -> bool {
        self.expr matches RegionExpr::Intersection(x, y) && *x == a.expr && *y == b.expr
    }

    /// `self` is the complement of `a`.
    pub open spec fn is_complement_of(self, a: Region) -> bool {
        self.expr matches RegionExpr::Complement(x) && *x == a.expr
    }

    pub fn new_from_halfspace(halfspace_type: HalfspaceType) -> (r: Region)
        ensures
            r.expr == RegionExpr::Halfspace(halfspace_type),
    {
        Region { expr: RegionExpr::Halfspace(halfspace_type) }
    }

    /// The points in both regions; the operands are shared, not copied.
    pub fn intersection(&self, other: &Region) -> (r: Region)
        ensures
            r.is_intersection_of(*self, *other),
    {
        Region {
            expr: RegionExpr::Intersection(
                Arc::new(self.expr.clone()),
                Arc::new(other.expr.clone()),
            ),
        }
    }

    /// The points in either region; the operands are shared, not copied.
    pub fn union(&self, other: &Region) -> (r: Region)
        ensures
            r.is_union_of(*self, *other),
    {
        Region {
            expr: RegionExpr::Union(Arc::new(self.expr.clone()), Arc::new(other.expr.clone())),
        }
    }

    /// The points outside the region.
    pub fn complement(&self) -> (r: Region)
        ensures
            r.is_complement_of(*self),
    {
        Region { expr: RegionExpr::Complement(Arc::new(self.expr.clone())) }
    }

    /// Whether `p` lies in the region; a point on a surface lies in neither
    /// halfspace of it.
    pub fn contains(&self, p: Point) -> (r: bool)
        ensures
            r == self.holds(p),
    {
        self.expr.evaluate_contains(p)
    }

    pub fn evaluate_contains(&self, p: Point) -> (r: bool)
        ensures
            r == self.holds(p),
    {
        self.expr.evaluate_contains(p)
    }

    /// A conservative axis-aligned box around the region, inferred from its
    /// expression without sampling points.
    pub fn bounding_box(&self) -> (r: BoundingBox)
        ensures
            r == self.spec_box(),
            r.wf(),
    {
        self.expr.bounding_box()
    }
}

/// Complementing twice gives the region back: a point lies in the complement
/// of the complement of `r` exactly when it lies in `r`.
pub proof fn lemma_double_complement(r: Region, c: Region, cc: Region, p: Point)
    requires
        c.is_complement_of(r),
        cc.is_complement_of(c),
    ensures
        cc.holds(p) == r.holds(p),
{
    assert(c.holds(p) == !r.holds(p));
}

/// De Morgan: the complement of a union holds where the intersection of the
/// two complements holds.
pub proof fn lemma_de_morgan(
    a: Region,
    b: Region,
    u: Region,
    not_u: Region,
    not_a: Region,
    not_b: Region,
    both: Region,
    p: Point,
)
    requires
        u.is_union_of(a, b),
        not_u.is_complement_of(u),
        not_a.is_complement_of(a),
        not_b.is_complement_of(b),
        both.is_intersection_of(not_a, not_b),
    ensures
        not_u.holds(p) == both.holds(p),
{
    assert(u.holds(p) == (a.holds(p) || b.holds(p)));
    assert(not_a.holds(p) == !a.holds(p));
    assert(not_b.holds(p) == !b.holds(p));
}

/// Union and intersection do not depend on the order of their operands.
pub proof fn lemma_commutative(
    a: Region,
    b: Region,
    ab: Region,
    ba: Region,
    a_and_b: Region,
    b_and_a: Region,
    p: Point,
)
    requires
        ab.is_union_of(a, b),
        ba.is_union_of(b, a),
        a_and_b.is_intersection_of(a, b),
        b_and_a.is_intersection_of(b, a),
    ensures
        ab.holds(p) == ba.holds(p),
        a_and_b.holds(p) == b_and_a.holds(p),
{
}

/// A point on a surface lies in neither of its halfspaces.
pub proof fn lemma_surface_excluded(s: Arc<Surface>, p: Point)
    requires
        s.side_at(p) == Side::Zero,
    ensures
        !HalfspaceType::Above(s).holds(p),
        !HalfspaceType::Below(s).holds(p),
{
}

/// A point at exactly the radius from a sphere's center lies neither below
/// nor above the sphere.
pub proof fn lemma_sphere_boundary_excluded(s: Arc<Surface>, p: Point)
    requires
        s.kind matches SurfaceKind::Sphere { x0, y0, z0, radius } && radius >= 0 && (p.0 - x0)
            * (p.0 - x0) + (p.1 - y0) * (p.1 - y0) + (p.2 - z0) * (p.2 - z0) == radius * radius,
    ensures
        !HalfspaceType::Above(s).holds(p),
        !HalfspaceType::Below(s).holds(p),
{
    lemma_surface_excluded(s, p);
}

proof fn lemma_square_below(u: int, v: int, w: int, r: int)
    requires
        r >= 0,
        u * u + v * v + w * w < r * r,
    ensures
        -r <= u <= r,
{
    assert(v * v >= 0 && w * w >= 0) by (nonlinear_arith);
    if u > r {
        assert(u * u > r * r) by (nonlinear_arith)
            requires
                u > r,
                r >= 0,
        ;
    }
    if u < -r {
        assert(u * u > r * r) by (nonlinear_arith)
            requires
                u < -r,
                r >= 0,
        ;
    }
}

proof fn lemma_halfspace_box_encloses(h: &HalfspaceType, p: Point)
    requires
        RegionExpr::Halfspace(*h).no_sphere_exterior(),
        h.holds(p),
    ensures
        h.spec_box().encloses(p),
        h.spec_box().normalized() == h.spec_box(),
{
    match h {
        HalfspaceType::Below(s) => {
            if let SurfaceKind::Sphere { x0, y0, z0, radius } = s.kind {
                let (u, v, w) = ((p.0 - x0) as int, (p.1 - y0) as int, (p.2 - z0) as int);
                assert(radius >= 0);
                lemma_square_below(u, v, w, radius as int);
                lemma_square_below(v, u, w, radius as int);
                lemma_square_below(w, v, u, radius as int);
            }
        },
        HalfspaceType::Above(_) => {},
    }
}

/// The inferred box is conservative: it encloses every point of the region,
/// wherever no halfspace outside a sphere stands outside a complement.
pub proof fn lemma_box_encloses(r: Region, p: Point)
    requires
        r.expr.no_sphere_exterior(),
        r.holds(p),
    ensures
        r.spec_box().encloses(p),
{
    r.expr.lemma_box_encloses(p);
}

impl RegionExpr {
    proof fn lemma_box_encloses(&self, p: Point)
        requires
            self.no_sphere_exterior(),
            self.holds(p),
        ensures
            self.spec_box().encloses(p),
        decreases self,
    {
        match self {
            RegionExpr::Halfspace(h) => lemma_halfspace_box_encloses(h, p),
            RegionExpr::Union(a, b) => {
                if a.holds(p) {
                    a.lemma_box_encloses(p);
                } else {
                    b.lemma_box_encloses(p);
                }
            },
            RegionExpr::Intersection(a, b) => {
                a.lemma_box_encloses(p);
                b.lemma_box_encloses(p);
            },
            RegionExpr::Complement(_) => {},
        }
    }
}

} // verus!
