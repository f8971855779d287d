//! Constructive solid geometry for Monte Carlo particle transport: surfaces,
//! regions built from their halfspaces by union, intersection and complement,
//! point containment, bounding-box inference, and cells gathered into
//! universes that locate points.
//!
//! Coordinates are integers counting a length quantum that the caller fixes,
//! so that which side of a surface a point lies on is decided exactly.

pub mod bound;
pub mod bounding_box;
pub mod cell;
pub mod geometry;
pub mod region;
pub mod surface;
pub mod universe;

pub use bound::Bound;
pub use bounding_box::BoundingBox;
pub use cell::{Cell, Fill};
pub use geometry::Geometry;
pub use region::{HalfspaceType, Region, RegionExpr};
pub use surface::{Axis, BoundaryType, Halfspace, Point, Side, Surface, SurfaceKind, ValidationError};
pub use universe::Universe;
