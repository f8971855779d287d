use vstd::prelude::*;

use crate::cell::Cell;
use crate::geometry::{is_first_containing, none_contains, position_containing};
use crate::surface::Point;

verus! {

/// No two cells of `cells` share an id.
pub open spec fn ids_unique(cells: Seq<Cell>) -> bool {
    forall|i: int, j: int|
        0 <= i < cells.len() && 0 <= j < cells.len() && i != j ==> #[trigger] cells[i].cell_id
            != #[trigger] cells[j].cell_id
}

/// Some cell of `cells` has the id `id`.
pub open spec fn has_id(cells: Seq<Cell>, id: u32) -> bool {
    exists|i: int| 0 <= i < cells.len() && #[trigger] cells[i].cell_id == id
}

/// A set of cells keyed by id, kept in the order of first insertion; point
/// location takes the first cell in that order that contains the point.
/// Its methods keep the ids unique (`wf`).
pub struct Universe {
    pub universe_id: u32,
    pub name: Option<String>,
    pub cells: Vec<Cell>,
}

impl View for Universe {
    type V = Seq<Cell>;

    open spec fn view(&self) -> Seq<Cell> {
        self.cells@
    }
}

impl Universe {
    pub open spec fn wf(&self) -> bool {
        ids_unique(self@)
    }

    pub fn new(universe_id: u32, name: Option<String>) -> (r: Universe)
        ensures
            r.universe_id == universe_id,
            r.name == name,
            r@ == Seq::<Cell>::empty(),
            r.wf(),
    {
        Universe { universe_id, name, cells: Vec::new() }
    }

    /// The cells, in order.
    pub fn cells(&self) -> (r: &Vec<Cell>)
        ensures
            r@ == self@,
    {
        &self.cells
    }

    fn position_of_id(&self, id: u32) -> (r: Option<usize>)
        ensures
            match r {
                Some(i) => i < self@.len() && self@[i as int].cell_id == id,
                None => !has_id(self@, id),
            },
    {
        let mut i: usize = 0;
        while i < self.cells.len()
            invariant
                i <= self.cells@.len(),
                forall|j: int| 0 <= j < i ==> (#[trigger] self.cells@[j]).cell_id != id,
            decreases self.cells@.len() - i,
        {
            if self.cells[i].cell_id == id {
                return Some(i);
            }
            i += 1;
        }
        None
    }

    /// Inserts `cell`; a cell already held under the same id is replaced in
    /// its place, silently.
    pub fn add_cell(&mut self, cell: Cell)
        requires
            old(self).wf(),
        ensures
            final(self).wf(),
            final(self).universe_id == old(self).universe_id,
            final(self).name == old(self).name,
            forall|i: int|
                0 <= i < old(self)@.len() && #[trigger] old(self)@[i].cell_id == cell.cell_id
                    ==> final(self)@ == old(self)@.update(i, cell),
            !has_id(old(self)@, cell.cell_id) ==> final(self)@ == old(self)@.push(cell),
    {
        let ghost id = cell.cell_id;
        match self.position_of_id(cell.cell_id) {
            Some(i) => {
                self.cells.set(i, cell);
                assert(forall|k: int|
                    0 <= k < old(self)@.len() && #[trigger] old(self)@[k].cell_id == id ==> k
                        == i);
            },
            None => {
                self.cells.push(cell);
            },
        }
    }

    /// The cell with id `id`; `None` where the universe holds none.
    pub fn get_cell(&self, id: u32) -> (r: Option<&Cell>)
        ensures
            match r {
                Some(c) => c.cell_id == id && exists|i: int|
                    0 <= i < self@.len() && *c == #[trigger] self@[i],
                None => !has_id(self@, id),
            },
    {
        match self.position_of_id(id) {
            Some(i) => Some(&self.cells[i]),
            None => None,
        }
    }

    /// The first cell, in order of insertion, that contains `p`; `None`
    /// where no cell does.
    pub fn find_cell(&self, p: Point) -> (r: Option<&Cell>)
        ensures
            match r {
                Some(c) => exists|i: int| is_first_containing(self@, p, i) && *c == self@[i],
                None => none_contains(self@, p),
            },
    {
        match position_containing(&self.cells, p) {
            Some(i) => {
                assert(is_first_containing(self@, p, i as int));
                Some(&self.cells[i])
            },
            None => None,
        }
    }
}

} // verus!
