use std::sync::Arc;
use vstd::prelude::*;

use crate::region::{HalfspaceType, RegionExpr};

verus! {

/// What a transport code does with a particle that reaches the surface.
/// The library stores the tag; it never acts on it.
#[derive(PartialEq, Eq, Structural, Clone, Copy, Debug)]
pub enum BoundaryType {
    Transmission,
    Vacuum,
}

impl Default for BoundaryType {
    fn default() -> (r: BoundaryType)
        ensures
            r == BoundaryType::Vacuum,
    {
        BoundaryType::Vacuum
    }
}

/// The lower-case form of a string, as `str::to_lowercase` gives it.
pub uninterp spec fn lower_of(s: Seq<char>) -> Seq<char>;

/// Relies on `str::to_lowercase`: the result depends on the characters alone.
#[verifier::external_body]
fn lowercase(s: &str) -> (r: String)
    ensures
        r@ == lower_of(s@),
{
    s.to_lowercase()
}

/// The boundary type that a lower-case name denotes.
pub open spec fn boundary_type_named(name: Seq<char>) -> Option<BoundaryType> {
    if name == "transmission"@ {
        Some(BoundaryType::Transmission)
    } else if name == "vacuum"@ {
        Some(BoundaryType::Vacuum)
    } else {
        None
    }
}

/// The boundary type that a name denotes, compared without regard to case.
pub open spec fn boundary_type_of_text(text: Seq<char>) -> Option<BoundaryType> {
    boundary_type_named(lower_of(text))
}

impl BoundaryType {
    /// Parses a boundary type from text, without regard to case; `None` for any
    /// text other than "transmission" or "vacuum".
    pub fn from_str_option(s: &str) -> (r: Option<BoundaryType>)
        ensures
            r == boundary_type_of_text(s@),
    {
        let lowered = lowercase(s);
        BoundaryType::from_lowercase_name(&lowered)
    }

    /// Parses a boundary type from a name that is already in lower case.
    pub fn from_lowercase_name(name: &String) -> (r: Option<BoundaryType>)
        ensures
            r == boundary_type_named(name@),
    {
        let transmission = "transmission".to_owned();
        let vacuum = "vacuum".to_owned();
        if *name == transmission {
            Some(BoundaryType::Transmission)
        } else if *name == vacuum {
            Some(BoundaryType::Vacuum)
        } else {
            None
        }
    }
}

/// The error of a constructor that is given boundary-type text outside the
/// accepted set.
#[derive(Debug)]
pub struct ValidationError {
    pub message: String,
}

/// A point of space; lengths count a quantum that the caller fixes.
pub type Point = (i32, i32, i32);

/// A coordinate axis. In integer coordinates the unit-length directions are
/// exactly the six axis directions, and a line's direction has no sign.
#[derive(PartialEq, Eq, Structural, Clone, Copy, Debug)]
pub enum Axis {
    X,
    Y,
    Z,
}

/// Which side of a surface's zero set a point lies on: the sign of the
/// surface's implicit function there.
#[derive(PartialEq, Eq, Structural, Clone, Copy, Debug)]
pub enum Side {
    Negative,
    Zero,
    Positive,
}

/// The implicit function of a surface. Coefficients of a plane are unitless
/// integers; every other number is a length.
#[derive(Clone, Copy, Debug, PartialEq)]
pub enum SurfaceKind {
    /// The zero set of `a*x + b*y + c*z - d`.
    Plane { a: i32, b: i32, c: i32, d: i32 },
    /// Distance from `(x0, y0, z0)`, minus `radius`.
    Sphere { x0: i32, y0: i32, z0: i32, radius: i32 },
    /// Distance from the line through `origin` along `axis`, minus `radius`.
    Cylinder { axis: Axis, origin: [i32; 3], radius: i32 },
}

/// An implicit surface with a caller-assigned id. Its geometry does not
/// change after construction; only the boundary tag can be set again.
#[derive(Clone, Copy, Debug, PartialEq)]
pub struct Surface {
    pub surface_id: usize,
    pub kind: SurfaceKind,
    pub boundary_type: BoundaryType,
}

pub open spec fn sign(v: int) -> Side {
    if v > 0 {
        Side::Positive
    } else if v < 0 {
        Side::Negative
    } else {
        Side::Zero
    }
}

/// The sign of `sqrt(dist2) - radius` for a squared distance `dist2 >= 0`:
/// a negative radius is below every distance, and otherwise both sides are
/// non-negative and compare as their squares do.
pub open spec fn distance_side(dist2: int, radius: int) -> Side {
    if radius < 0 {
        Side::Positive
    } else {
        sign(dist2 - radius * radius)
    }
}

/// Squared distance of the offset `(u, v, w)` from a line along `axis`.
pub open spec fn off_axis_square(axis: Axis, u: int, v: int, w: int) -> int {
    match axis {
        Axis::X => v * v + w * w,
        Axis::Y => u * u + w * w,
        Axis::Z => u * u + v * v,
    }
}

/// The boundary type that optional text asks for: `Some(None)` for no text,
/// `Some(Some(t))` for the name of `t`, `None` for text that names nothing.
pub open spec fn requested_boundary(text: Option<&str>) -> Option<Option<BoundaryType>> {
    match text {
        None => Some(None),
        Some(s) => match boundary_type_of_text(s@) {
            Some(t) => Some(Some(t)),
            None => None,
        },
    }
}

pub open spec fn or_vacuum(boundary_type: Option<BoundaryType>) -> BoundaryType {
    match boundary_type {
        Some(t) => t,
        None => BoundaryType::Vacuum,
    }
}

/// What a constructor that takes boundary-type text returns: the surface of
/// the given id and kind with the tag that the text names (vacuum for no
/// text), or a validation error where the text names no boundary type.
pub open spec fn built_from_text(
    r: Result<Surface, ValidationError>,
    surface_id: usize,
    kind: SurfaceKind,
    text: Option<&str>,
) -> bool {
    match requested_boundary(text) {
        Some(t) => r matches Ok(s) && s.surface_id == surface_id && s.kind == kind
            && s.boundary_type == or_vacuum(t),
        None => r is Err,
    }
}

fn product(a: i32, b: i32) -> (r: i128)
    ensures
        r == a * b,
        -0x4000_0000_0000_0000 <= r <= 0x4000_0000_0000_0000,
{
    proof {
        assert(-0x4000_0000_0000_0000 <= (a as int) * (b as int) <= 0x4000_0000_0000_0000) by (nonlinear_arith)
            requires
                -0x8000_0000 <= a <= 0x7fff_ffff,
                -0x8000_0000 <= b <= 0x7fff_ffff,
        ;
    }
    (a as i128) * (b as i128)
}

fn square_of_difference(p: i32, q: i32) -> (r: i128)
    ensures
        r == (p - q) * (p - q),
        r >= 0,
        r <= 0x4_0000_0000_0000_0000,
{
    let d = (p as i128) - (q as i128);
    proof {
        assert(0 <= d * d <= 0x4_0000_0000_0000_0000) by (nonlinear_arith)
            requires
                -0x1_0000_0000 <= d <= 0x1_0000_0000,
        ;
    }
    d * d
}

fn side_of_distance(dist2: i128, radius: i32) -> (r: Side)
    requires
        dist2 >= 0,
    ensures
        r == distance_side(dist2 as int, radius as int),
{
    if radius < 0 {
        Side::Positive
    } else {
        let r2 = product(radius, radius);
        if dist2 > r2 {
            Side::Positive
        } else if dist2 < r2 {
            Side::Negative
        } else {
            Side::Zero
        }
    }
}

fn boundary_from_text(text: Option<&str>) -> (r: Result<Option<BoundaryType>, ValidationError>)
    ensures
        match requested_boundary(text) {
            Some(t) => r == Ok::<Option<BoundaryType>, ValidationError>(t),
            None => r is Err,
        },
{
    match text {
        None => Ok(None),
        Some(s) => match BoundaryType::from_str_option(s) {
            Some(t) => Ok(Some(t)),
            None => Err(
                ValidationError {
                    message: "boundary_type must be 'transmission' or 'vacuum'".to_owned(),
                },
            ),
        },
    }
}

impl Surface {
    /// The side of the surface that `p` lies on: the sign of the implicit
    /// function (plane: `a*x + b*y + c*z - d`; sphere and cylinder: distance
    /// minus radius).
    pub open spec fn side_at(self, p: Point) -> Side {
        match self.kind {
            SurfaceKind::Plane { a, b, c, d } => sign(a * p.0 + b * p.1 + c * p.2 - d),
            SurfaceKind::Sphere { x0, y0, z0, radius } => distance_side(
                (p.0 - x0) * (p.0 - x0) + (p.1 - y0) * (p.1 - y0) + (p.2 - z0) * (p.2 - z0),
                radius as int,
            ),
            SurfaceKind::Cylinder { axis, origin, radius } => distance_side(
                off_axis_square(axis, p.0 - origin[0], p.1 - origin[1], p.2 - origin[2]),
                radius as int,
            ),
        }
    }

    pub fn new_plane(
        a: i32,
        b: i32,
        c: i32,
        d: i32,
        surface_id: usize,
        boundary_type: Option<BoundaryType>,
    ) -> (r: Surface)
        ensures
            r.surface_id == surface_id,
            r.kind == (SurfaceKind::Plane { a, b, c, d }),
            r.boundary_type == or_vacuum(boundary_type),
    {
        let boundary_type = match boundary_type {
            Some(t) => t,
            None => BoundaryType::Vacuum,
        };
        Surface { surface_id, kind: SurfaceKind::Plane { a, b, c, d }, boundary_type }
    }

    pub fn new_sphere(
        x0: i32,
        y0: i32,
        z0: i32,
        radius: i32,
        surface_id: usize,
        boundary_type: Option<BoundaryType>,
    ) -> (r: Surface)
        ensures
            r.surface_id == surface_id,
            r.kind == (SurfaceKind::Sphere { x0, y0, z0, radius }),
            r.boundary_type == or_vacuum(boundary_type),
    {
        let boundary_type = match boundary_type {
            Some(t) => t,
            None => BoundaryType::Vacuum,
        };
        Surface { surface_id, kind: SurfaceKind::Sphere { x0, y0, z0, radius }, boundary_type }
    }

    pub fn new_cylinder(
        axis: Axis,
        origin: [i32; 3],
        radius: i32,
        surface_id: usize,
        boundary_type: Option<BoundaryType>,
    ) -> (r: Surface)
        ensures
            r.surface_id == surface_id,
            r.kind == (SurfaceKind::Cylinder { axis, origin, radius }),
            r.boundary_type == or_vacuum(boundary_type),
    {
        let boundary_type = match boundary_type {
            Some(t) => t,
            None => BoundaryType::Vacuum,
        };
        Surface { surface_id, kind: SurfaceKind::Cylinder { axis, origin, radius }, boundary_type }
    }

    /// The plane `x = x0`.
    pub fn x_plane(x0: i32, surface_id: usize, boundary_type: Option<BoundaryType>) -> (r: Surface)
        ensures
            r.surface_id == surface_id,
            r.kind == (SurfaceKind::Plane { a: 1, b: 0, c: 0, d: x0 }),
            r.boundary_type == or_vacuum(boundary_type),
    {
        Surface::new_plane(1, 0, 0, x0, surface_id, boundary_type)
    }

    /// The plane `y = y0`.
    pub fn y_plane(y0: i32, surface_id: usize, boundary_type: Option<BoundaryType>) -> (r: Surface)
        ensures
            r.surface_id == surface_id,
            r.kind == (SurfaceKind::Plane { a: 0, b: 1, c: 0, d: y0 }),
            r.boundary_type == or_vacuum(boundary_type),
    {
        Surface::new_plane(0, 1, 0, y0, surface_id, boundary_type)
    }

    /// The plane `z = z0`.
    pub fn z_plane(z0: i32, surface_id: usize, boundary_type: Option<BoundaryType>) -> (r: Surface)
        ensures
            r.surface_id == surface_id,
            r.kind == (SurfaceKind::Plane { a: 0, b: 0, c: 1, d: z0 }),
            r.boundary_type == or_vacuum(boundary_type),
    {
        Surface::new_plane(0, 0, 1, z0, surface_id, boundary_type)
    }

    /// The cylinder along the z axis through `(x0, y0)`.
    pub fn z_cylinder(
        x0: i32,
        y0: i32,
        radius: i32,
        surface_id: usize,
        boundary_type: Option<BoundaryType>,
    ) -> (r: Surface)
        ensures
            r.surface_id == surface_id,
            r.kind == (SurfaceKind::Cylinder { axis: Axis::Z, origin: [x0, y0, 0], radius }),
            r.boundary_type == or_vacuum(boundary_type),
    {
        Surface::new_cylinder(Axis::Z, [x0, y0, 0], radius, surface_id, boundary_type)
    }

    pub fn sphere(
        x0: i32,
        y0: i32,
        z0: i32,
        radius: i32,
        surface_id: usize,
        boundary_type: Option<BoundaryType>,
    ) -> (r: Surface)
        ensures
            r.surface_id == surface_id,
            r.kind == (SurfaceKind::Sphere { x0, y0, z0, radius }),
            r.boundary_type == or_vacuum(boundary_type),
    {
        Surface::new_sphere(x0, y0, z0, radius, surface_id, boundary_type)
    }

    /// The cylinder along `axis` through `(x0, y0, z0)`.
    pub fn cylinder(
        x0: i32,
        y0: i32,
        z0: i32,
        axis: Axis,
        radius: i32,
        surface_id: usize,
        boundary_type: Option<BoundaryType>,
    ) -> (r: Surface)
        ensures
            r.surface_id == surface_id,
            r.kind == (SurfaceKind::Cylinder { axis, origin: [x0, y0, z0], radius }),
            r.boundary_type == or_vacuum(boundary_type),
    {
        Surface::new_cylinder(axis, [x0, y0, z0], radius, surface_id, boundary_type)
    }

    pub fn x_plane_str(
        x0: i32,
        surface_id: usize,
        boundary_type: Option<&str>,
    ) -> (r: Result<Surface, ValidationError>)
        ensures
            built_from_text(r, surface_id, (SurfaceKind::Plane { a: 1, b: 0, c: 0, d: x0 }), boundary_type),
    {
        let boundary = boundary_from_text(boundary_type)?;
        Ok(Surface::x_plane(x0, surface_id, boundary))
    }

    pub fn y_plane_str(
        y0: i32,
        surface_id: usize,
        boundary_type: Option<&str>,
    ) -> (r: Result<Surface, ValidationError>)
        ensures
            built_from_text(r, surface_id, (SurfaceKind::Plane { a: 0, b: 1, c: 0, d: y0 }), boundary_type),
    {
        let boundary = boundary_from_text(boundary_type)?;
        Ok(Surface::y_plane(y0, surface_id, boundary))
    }

    pub fn z_plane_str(
        z0: i32,
        surface_id: usize,
        boundary_type: Option<&str>,
    ) -> (r: Result<Surface, ValidationError>)
        ensures
            built_from_text(r, surface_id, (SurfaceKind::Plane { a: 0, b: 0, c: 1, d: z0 }), boundary_type),
    {
        let boundary = boundary_from_text(boundary_type)?;
        Ok(Surface::z_plane(z0, surface_id, boundary))
    }

    pub fn sphere_str(
        x0: i32,
        y0: i32,
        z0: i32,
        radius: i32,
        surface_id: usize,
        boundary_type: Option<&str>,
    ) -> (r: Result<Surface, ValidationError>)
        ensures
            built_from_text(r, surface_id, (SurfaceKind::Sphere { x0, y0, z0, radius }), boundary_type),
    {
        let boundary = boundary_from_text(boundary_type)?;
        Ok(Surface::sphere(x0, y0, z0, radius, surface_id, boundary))
    }

    pub fn cylinder_str(
        x0: i32,
        y0: i32,
        z0: i32,
        axis: Axis,
        radius: i32,
        surface_id: usize,
        boundary_type: Option<&str>,
    ) -> (r: Result<Surface, ValidationError>)
        ensures
            built_from_text(r, surface_id, (SurfaceKind::Cylinder { axis, origin: [x0, y0, z0], radius }), boundary_type),
    {
        let boundary = boundary_from_text(boundary_type)?;
        Ok(Surface::cylinder(x0, y0, z0, axis, radius, surface_id, boundary))
    }

    pub fn z_cylinder_str(
        x0: i32,
        y0: i32,
        radius: i32,
        surface_id: usize,
        boundary_type: Option<&str>,
    ) -> (r: Result<Surface, ValidationError>)
        ensures
            built_from_text(r, surface_id, (SurfaceKind::Cylinder { axis: Axis::Z, origin: [x0, y0, 0], radius }), boundary_type),
    {
        let boundary = boundary_from_text(boundary_type)?;
        Ok(Surface::z_cylinder(x0, y0, radius, surface_id, boundary))
    }

    pub fn plane_str(
        a: i32,
        b: i32,
        c: i32,
        d: i32,
        surface_id: usize,
        boundary_type: Option<&str>,
    ) -> (r: Result<Surface, ValidationError>)
        ensures
            built_from_text(r, surface_id, (SurfaceKind::Plane { a, b, c, d }), boundary_type),
    {
        let boundary = boundary_from_text(boundary_type)?;
        Ok(Surface::new_plane(a, b, c, d, surface_id, boundary))
    }

    pub fn boundary_type(&self) -> (r: &BoundaryType)
        ensures
            *r == self.boundary_type,
    {
        &self.boundary_type
    }

    /// Replaces the boundary tag; the geometry is left as it was.
    pub fn set_boundary_type(&mut self, boundary_type: BoundaryType)
        ensures
            final(self).boundary_type == boundary_type,
            final(self).kind == old(self).kind,
            final(self).surface_id == old(self).surface_id,
    {
        self.boundary_type = boundary_type;
    }

    /// The side of the surface that `p` lies on.
    pub fn side(&self, p: Point) -> (r: Side)
        ensures
            r == self.side_at(p),
    {
        match self.kind {
            SurfaceKind::Plane { a, b, c, d } => {
                let v = product(a, p.0) + product(b, p.1) + product(c, p.2) - (d as i128);
                if v > 0 {
                    Side::Positive
                } else if v < 0 {
                    Side::Negative
                } else {
                    Side::Zero
                }
            },
            SurfaceKind::Sphere { x0, y0, z0, radius } => {
                let dist2 = square_of_difference(p.0, x0) + square_of_difference(p.1, y0)
                    + square_of_difference(p.2, z0);
                side_of_distance(dist2, radius)
            },
            SurfaceKind::Cylinder { axis, origin, radius } => {
                let dist2 = match axis {
                    Axis::X => square_of_difference(p.1, origin[1]) + square_of_difference(
                        p.2,
                        origin[2],
                    ),
                    Axis::Y => square_of_difference(p.0, origin[0]) + square_of_difference(
                        p.2,
                        origin[2],
                    ),
                    Axis::Z => square_of_difference(p.0, origin[0]) + square_of_difference(
                        p.1,
                        origin[1],
                    ),
                };
                side_of_distance(dist2, radius)
            },
        }
    }
}

/// A region made of one halfspace of a surface.
pub struct Halfspace {
    pub expr: RegionExpr,
}

impl Halfspace {
    /// The side of `surface` where its implicit function is positive.
    pub fn new_above(surface: Arc<Surface>) -> (r: Halfspace)
        ensures
            r.expr == RegionExpr::Halfspace(HalfspaceType::Above(surface)),
    {
        Halfspace { expr: RegionExpr::Halfspace(HalfspaceType::Above(surface)) }
    }

    /// The side of `surface` where its implicit function is negative.
    pub fn new_below(surface: Arc<Surface>) -> (r: Halfspace)
        ensures
            r.expr == RegionExpr::Halfspace(HalfspaceType::Below(surface)),
    {
        Halfspace { expr: RegionExpr::Halfspace(HalfspaceType::Below(surface)) }
    }
}

} // verus!
