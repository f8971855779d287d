use vstd::prelude::*;

use materials_for_mc::Material;

use crate::bounding_box::BoundingBox;
use crate::region::Region;
use crate::surface::Point;

verus! {

/// The material type of `materials_for_mc`, carried in a cell's fill
/// without being looked into.
#[verifier::external_type_specification]
#[verifier::external_body]
pub struct ExMaterial(materials_for_mc::Material);

/// What fills a cell: nothing, a material, or another universe by its id.
/// The library carries the material without looking into it.
pub enum Fill {
    Void,
    Material(Material),
    Universe(u32),
}

/// A region of space with an identity and what fills it.
pub struct Cell {
    pub cell_id: u32,
    pub name: Option<String>,
    pub region: Region,
    pub fill: Fill,
}

impl Cell {
    /// Whether `p` lies in the cell.
    pub open spec fn holds(self, p: Point) -> bool {
        self.region.holds(p)
    }

    /// A cell filled with `material`, or void where there is none.
    pub fn new(cell_id: u32, region: Region, name: Option<String>, material: Option<Material>) -> (r: Cell)
        ensures
            r.cell_id == cell_id,
            r.region == region,
            r.name == name,
            r.fill == (match material {
                Some(m) => Fill::Material(m),
                None => Fill::Void,
            }),
    {
        let fill = match material {
            Some(m) => Fill::Material(m),
            None => Fill::Void,
        };
        Cell { cell_id, name, region, fill }
    }

    pub fn with_fill(cell_id: u32, region: Region, name: Option<String>, fill: Fill) -> (r: Cell)
        ensures
            r.cell_id == cell_id,
            r.region == region,
            r.name == name,
            r.fill == fill,
    {
        Cell { cell_id, name, region, fill }
    }

    /// Whether `p` lies in the cell's region.
    pub fn contains(&self, p: Point) -> (r: bool)
        ensures
            r == self.holds(p),
    {
        self.region.contains(p)
    }

    pub fn bounding_box(&self) -> (r: BoundingBox)
        ensures
            r == self.region.spec_box(),
    {
        self.region.bounding_box()
    }

    /// The material that fills the cell, if a material does.
    pub fn material(&self) -> (r: Option<&Material>)
        ensures
            r == (match self.fill {
                Fill::Material(m) => Some(&m),
                _ => None,
            }),
    {
        match &self.fill {
            Fill::Material(m) => Some(m),
            _ => None,
        }
    }

    /// The id of the universe that fills the cell, if one does.
    pub fn universe_id(&self) -> (r: Option<u32>)
        ensures
            r == (match self.fill {
                Fill::Universe(id) => Some(id),
                _ => None,
            }),
    {
        match &self.fill {
            Fill::Universe(id) => Some(*id),
            _ => None,
        }
    }

    pub fn is_void(&self) -> (r: bool)
        ensures
            r == (self.fill is Void),
    {
        match &self.fill {
            Fill::Void => true,
            _ => false,
        }
    }

    pub fn set_name(&mut self, name: Option<String>)
        ensures
            final(self).name == name,
            final(self).cell_id == old(self).cell_id,
            final(self).region == old(self).region,
            final(self).fill == old(self).fill,
    {
        self.name = name;
    }
}

} // verus!
