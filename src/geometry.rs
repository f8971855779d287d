use vstd::prelude::*;

use crate::cell::Cell;
use crate::surface::Point;

verus! {

/// `i` is the first position of `cells` whose cell holds `p`.
pub open spec fn is_first_containing(cells: Seq<Cell>, p: Point, i: int) -> bool {
    &&& 0 <= i < cells.len()
    &&& cells[i].holds(p)
    &&& forall|j: int| 0 <= j < i ==> !(#[trigger] cells[j]).holds(p)
}

/// No cell of `cells` holds `p`.
pub open spec fn none_contains(cells: Seq<Cell>, p: Point) -> bool {
    forall|j: int| 0 <= j < cells.len() ==> !(#[trigger] cells[j]).holds(p)
}

/// The position of the first cell, in order, whose region holds `p`.
pub fn position_containing(cells: &Vec<Cell>, p: Point) -> (r: Option<usize>)
    ensures
        match r {
            Some(i) => is_first_containing(cells@, p, i as int),
            None => none_contains(cells@, p),
        },
{
    let mut i: usize = 0;
    while i < cells.len()
        invariant
            i <= cells@.len(),
            forall|j: int| 0 <= j < i ==> !(#[trigger] cells@[j]).holds(p),
        decreases cells@.len() - i,
    {
        if cells[i].contains(p) {
            return Some(i);
        }
        i += 1;
    }
    None
}

/// A list of cells, searched in order.
pub struct Geometry {
    pub cells: Vec<Cell>,
}

impl Geometry {
    /// The first cell, in order, that contains `p`; `None` where no cell does.
    pub fn find_cell(&self, p: Point) -> (r: Option<&Cell>)
        ensures
            match r {
                Some(c) => exists|i: int| is_first_containing(self.cells@, p, i) && *c == self.cells@[i],
                None => none_contains(self.cells@, p),
            },
    {
        match position_containing(&self.cells, p) {
            Some(i) => Some(&self.cells[i]),
            None => None,
        }
    }
}

} // verus!
