// Lengths in these tests count tenths of a unit.
use csg_for_mc::{Axis, BoundaryType, Side, Surface, SurfaceKind};

#[test]
fn test_plane_creation() {
    let plane = Surface::new_plane(1, 0, 0, 20, 42, None);
    match plane.kind {
        SurfaceKind::Plane { a, b, c, d } => {
            assert_eq!(a, 1);
            assert_eq!(b, 0);
            assert_eq!(c, 0);
            assert_eq!(d, 20);
        }
        _ => panic!("Not a plane"),
    }
    assert_eq!(plane.surface_id, 42);
}

#[test]
fn test_sphere_creation() {
    let sphere = Surface::new_sphere(10, 20, 30, 50, 7, None);
    match sphere.kind {
        SurfaceKind::Sphere { x0, y0, z0, radius } => {
            assert_eq!(x0, 10);
            assert_eq!(y0, 20);
            assert_eq!(z0, 30);
            assert_eq!(radius, 50);
        }
        _ => panic!("Not a sphere"),
    }
    assert_eq!(sphere.surface_id, 7);
}

#[test]
fn test_cylinder_creation() {
    let axis = Axis::Y;
    let origin = [10, 20, 30];
    let cylinder = Surface::new_cylinder(axis, origin, 20, 99, None);
    match cylinder.kind {
        SurfaceKind::Cylinder { axis: a, origin: o, radius } => {
            assert_eq!(a, axis);
            assert_eq!(o, origin);
            assert_eq!(radius, 20);
        }
        _ => panic!("Not a cylinder"),
    }
    assert_eq!(cylinder.surface_id, 99);
}

#[test]
fn test_z_cylinder_creation() {
    let zcyl = Surface::z_cylinder(10, 20, 30, 123, None);
    match zcyl.kind {
        SurfaceKind::Cylinder { axis, origin, radius } => {
            assert_eq!(axis, Axis::Z);
            assert_eq!(origin, [10, 20, 0]);
            assert_eq!(radius, 30);
        }
        _ => panic!("Not a Z cylinder"),
    }
    assert_eq!(zcyl.surface_id, 123);
}

#[test]
fn test_boundary_type_default() {
    let plane = Surface::new_plane(1, 0, 0, 20, 42, None);
    assert_eq!(*plane.boundary_type(), BoundaryType::Vacuum);
}

#[test]
fn test_boundary_type_vacuum() {
    let sphere = Surface::new_sphere(0, 0, 0, 10, 1, Some(BoundaryType::Vacuum));
    assert_eq!(*sphere.boundary_type(), BoundaryType::Vacuum);
}

#[test]
fn test_set_boundary_type() {
    let mut cylinder = Surface::new_cylinder(Axis::Z, [0, 0, 0], 10, 2, None);
    assert_eq!(*cylinder.boundary_type(), BoundaryType::Vacuum);

    cylinder.set_boundary_type(BoundaryType::Transmission);
    assert_eq!(*cylinder.boundary_type(), BoundaryType::Transmission);

    cylinder.set_boundary_type(BoundaryType::Vacuum);
    assert_eq!(*cylinder.boundary_type(), BoundaryType::Vacuum);
}

#[test]
fn boundary_type_text_ignores_case() {
    assert_eq!(BoundaryType::from_str_option("Transmission"), Some(BoundaryType::Transmission));
    assert_eq!(BoundaryType::from_str_option("VACUUM"), Some(BoundaryType::Vacuum));
    assert_eq!(BoundaryType::from_str_option("vacuum"), Some(BoundaryType::Vacuum));
    assert_eq!(BoundaryType::from_str_option("reflective"), None);
    assert_eq!(BoundaryType::from_str_option(""), None);
}

#[test]
fn lowercase_names_are_matched_exactly() {
    assert_eq!(
        BoundaryType::from_lowercase_name(&"transmission".to_string()),
        Some(BoundaryType::Transmission)
    );
    assert_eq!(BoundaryType::from_lowercase_name(&"Vacuum".to_string()), None);
}

#[test]
fn text_constructors_validate_boundary_type() {
    let s = Surface::x_plane_str(15, 3, Some("TRANSMISSION")).unwrap();
    assert_eq!(s.boundary_type, BoundaryType::Transmission);
    assert_eq!(s.kind, SurfaceKind::Plane { a: 1, b: 0, c: 0, d: 15 });
    let s = Surface::sphere_str(0, 0, 0, 4, 4, None).unwrap();
    assert_eq!(s.boundary_type, BoundaryType::Vacuum);
    let err = Surface::z_cylinder_str(0, 0, 4, 5, Some("mirror")).unwrap_err();
    assert_eq!(err.message, "boundary_type must be 'transmission' or 'vacuum'");
    assert!(Surface::plane_str(1, 1, 0, 3, 6, Some("reflect")).is_err());
    assert!(Surface::y_plane_str(1, 7, Some("Vacuum")).is_ok());
    assert!(Surface::z_plane_str(1, 8, Some("vacuum ")).is_err());
    let c = Surface::cylinder_str(1, 2, 3, Axis::X, 4, 9, Some("transmission")).unwrap();
    assert_eq!(c.kind, SurfaceKind::Cylinder { axis: Axis::X, origin: [1, 2, 3], radius: 4 });
}

#[test]
fn plane_side_is_the_sign_of_its_function() {
    let p = Surface::new_plane(1, 2, -1, 3, 1, None);
    assert_eq!(p.side((3, 0, 0)), Side::Zero);
    assert_eq!(p.side((4, 0, 0)), Side::Positive);
    assert_eq!(p.side((0, 1, 0)), Side::Negative);
}

#[test]
fn sphere_side_compares_distance_with_radius() {
    let s = Surface::sphere(0, 0, 0, 5, 1, None);
    assert_eq!(s.side((3, 4, 0)), Side::Zero);
    assert_eq!(s.side((3, 3, 0)), Side::Negative);
    assert_eq!(s.side((3, 4, 1)), Side::Positive);
    let negative = Surface::sphere(0, 0, 0, -1, 2, None);
    assert_eq!(negative.side((0, 0, 0)), Side::Positive);
}

#[test]
fn cylinder_side_ignores_the_axis_coordinate() {
    let c = Surface::cylinder(1, 1, 1, Axis::X, 5, 1, None);
    assert_eq!(c.side((1000, 4, 5)), Side::Zero);
    assert_eq!(c.side((-1000, 1, 1)), Side::Negative);
    assert_eq!(c.side((1, 7, 1)), Side::Positive);
    let z = Surface::z_cylinder(0, 0, 2, 2, None);
    assert_eq!(z.side((0, 0, 99)), Side::Negative);
}

#[test]
fn extreme_coordinates_do_not_overflow() {
    let s = Surface::sphere(i32::MIN, i32::MIN, i32::MIN, i32::MAX, 1, None);
    assert_eq!(s.side((i32::MAX, i32::MAX, i32::MAX)), Side::Positive);
    let p = Surface::new_plane(i32::MAX, i32::MAX, i32::MAX, i32::MIN, 2, None);
    assert_eq!(p.side((i32::MAX, i32::MAX, i32::MAX)), Side::Positive);
}
