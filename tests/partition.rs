// Lengths in these tests count tenths of a unit.
use std::sync::Arc;

use csg_for_mc::{Cell, Fill, Geometry, HalfspaceType, Region, Surface, Universe};
use materials_for_mc::Material;

fn ball(id: usize, x0: i32, radius: i32) -> Region {
    Region::new_from_halfspace(HalfspaceType::Below(Arc::new(Surface::sphere(x0, 0, 0, radius, id, None))))
}

#[test]
fn universe_routes_points_to_material_sphere_and_void_rest() {
    let sphere = Arc::new(Surface::sphere(0, 0, 0, 20, 1, None));
    let inside = Region::new_from_halfspace(HalfspaceType::Below(sphere));
    let outside = inside.complement();
    let mut universe = Universe::new(0, Some("root".to_string()));
    let mut fuel = Material::new();
    fuel.set_name("fuel");
    universe.add_cell(Cell::new(1, inside, Some("fuel".to_string()), Some(fuel)));
    universe.add_cell(Cell::new(2, outside, Some("void".to_string()), None));

    let hit = universe.find_cell((5, 5, 5)).unwrap();
    assert_eq!(hit.cell_id, 1);
    assert!(hit.material().is_some());
    assert_eq!(hit.material().unwrap().name, Some("fuel".to_string()));

    let miss = universe.find_cell((50, 0, 0)).unwrap();
    assert_eq!(miss.cell_id, 2);
    assert!(miss.is_void());

    // a point on the sphere is not below it, so it falls in the complement
    assert_eq!(universe.find_cell((20, 0, 0)).unwrap().cell_id, 2);
}

#[test]
fn add_cell_replaces_a_cell_with_the_same_id_in_place() {
    let mut universe = Universe::new(7, None);
    universe.add_cell(Cell::new(1, ball(1, 0, 10), None, None));
    universe.add_cell(Cell::new(2, ball(2, 100, 10), None, None));
    universe.add_cell(Cell::with_fill(1, ball(3, 200, 10), Some("moved".to_string()), Fill::Universe(3)));
    assert_eq!(universe.cells().len(), 2);
    assert_eq!(universe.cells()[0].cell_id, 1);
    assert_eq!(universe.cells()[0].name, Some("moved".to_string()));
    assert!(universe.find_cell((0, 0, 0)).is_none());
    assert_eq!(universe.find_cell((200, 0, 0)).unwrap().cell_id, 1);
    assert_eq!(universe.get_cell(1).unwrap().universe_id(), Some(3));
    assert!(universe.get_cell(5).is_none());
    assert_eq!(universe.universe_id, 7);
}

#[test]
fn overlapping_cells_resolve_to_the_first_inserted() {
    let mut universe = Universe::new(1, None);
    universe.add_cell(Cell::new(8, ball(1, 0, 10), None, None));
    universe.add_cell(Cell::new(3, ball(2, 5, 10), None, None));
    assert_eq!(universe.find_cell((6, 0, 0)).unwrap().cell_id, 8);
    assert_eq!(universe.find_cell((14, 0, 0)).unwrap().cell_id, 3);
}

#[test]
fn empty_universe_finds_nothing() {
    let universe = Universe::new(0, None);
    assert!(universe.find_cell((0, 0, 0)).is_none());
    assert!(universe.get_cell(0).is_none());
}

#[test]
fn geometry_returns_first_containing_cell() {
    let geometry = Geometry {
        cells: vec![
            Cell::new(1, ball(1, 0, 10), None, None),
            Cell::new(2, ball(2, 0, 30), None, None),
        ],
    };
    assert_eq!(geometry.find_cell((0, 0, 0)).unwrap().cell_id, 1);
    assert_eq!(geometry.find_cell((20, 0, 0)).unwrap().cell_id, 2);
    assert!(geometry.find_cell((40, 0, 0)).is_none());
}
