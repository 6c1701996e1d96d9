use stl_weight::material::Material;
use stl_weight::mesh::{Mesh, Triangle, Vertex};
use stl_weight::rational::Rat;
use stl_weight::response::WeightResponse;
use stl_weight::scaling::scale_volume;
use stl_weight::volume::calculate_volume;
use stl_weight::weight::{calculate_weight, calculate_weight_from_mesh};
use stl_weight::WeightError;

fn vert(x: i64, y: i64, z: i64) -> Vertex {
    Vertex { x, y, z }
}

fn tri(v0: usize, v1: usize, v2: usize) -> Triangle {
    Triangle { v0, v1, v2 }
}

fn cube_vertices(offset: (i64, i64, i64)) -> Vec<Vertex> {
    let (dx, dy, dz) = offset;
    vec![
        vert(dx, dy, dz),
        vert(dx + 1, dy, dz),
        vert(dx + 1, dy + 1, dz),
        vert(dx, dy + 1, dz),
        vert(dx, dy, dz + 1),
        vert(dx + 1, dy, dz + 1),
        vert(dx + 1, dy + 1, dz + 1),
        vert(dx, dy + 1, dz + 1),
    ]
}

fn cube_faces() -> Vec<Triangle> {
    vec![
        tri(0, 2, 1),
        tri(0, 3, 2),
        tri(4, 5, 6),
        tri(4, 6, 7),
        tri(0, 1, 5),
        tri(0, 5, 4),
        tri(2, 3, 7),
        tri(2, 7, 6),
        tri(0, 4, 7),
        tri(0, 7, 3),
        tri(1, 2, 6),
        tri(1, 6, 5),
    ]
}

fn unit_cube() -> Mesh {
    Mesh::new(cube_vertices((0, 0, 0)), cube_faces()).unwrap()
}

/// Two rationals denote the same value.
fn rat_value_eq(r: &Rat, num: i128, den: i128) -> bool {
    r.num * den == num * r.den
}

#[test]
fn unit_cube_volume_is_one() {
    let v = calculate_volume(&unit_cube());
    assert!(rat_value_eq(&v, 1, 1));
}

#[test]
fn tetrahedron_volume_is_one_sixth() {
    let vertices = vec![vert(0, 0, 0), vert(1, 0, 0), vert(0, 1, 0), vert(0, 0, 1)];
    let faces = vec![tri(0, 2, 1), tri(0, 1, 3), tri(0, 3, 2), tri(1, 2, 3)];
    let m = Mesh::new(vertices, faces).unwrap();
    let v = calculate_volume(&m);
    assert!(rat_value_eq(&v, 1, 6));
}

#[test]
fn empty_mesh_volume_is_zero() {
    let m = Mesh::new(vec![], vec![]).unwrap();
    let v = calculate_volume(&m);
    assert_eq!(v.num, 0);
}

#[test]
fn volume_is_nonnegative_on_reversed_cube() {
    let reversed: Vec<Triangle> = cube_faces().iter().map(|t| tri(t.v0, t.v2, t.v1)).collect();
    let m = Mesh::new(cube_vertices((0, 0, 0)), reversed).unwrap();
    let v = calculate_volume(&m);
    assert!(v.num >= 0);
    assert!(rat_value_eq(&v, 1, 1));
}

#[test]
fn volume_is_translation_invariant() {
    let near = calculate_volume(&unit_cube());
    let far = Mesh::new(cube_vertices((5417, -3203, 999_000)), cube_faces()).unwrap();
    let v = calculate_volume(&far);
    assert!(rat_value_eq(&v, 1, 1));
    assert!(v.num * near.den == near.num * v.den);
}

#[test]
fn scale_cube_to_ten_gives_thousand() {
    let m = unit_cube();
    let v = calculate_volume(&m);
    let ten = Rat::new(10, 1);
    let s = scale_volume(&v, &ten, &ten, &ten, &m).unwrap();
    assert!(rat_value_eq(&s, 1000, 1));
}

#[test]
fn scale_is_monotone_in_each_axis() {
    let m = unit_cube();
    let v = calculate_volume(&m);
    let ten = Rat::new(10, 1);
    let eleven = Rat::new(11, 1);
    let base = scale_volume(&v, &ten, &ten, &ten, &m).unwrap();
    let bigger_x = scale_volume(&v, &eleven, &ten, &ten, &m).unwrap();
    let bigger_y = scale_volume(&v, &ten, &eleven, &ten, &m).unwrap();
    let bigger_z = scale_volume(&v, &ten, &ten, &eleven, &m).unwrap();
    for bigger in [&bigger_x, &bigger_y, &bigger_z] {
        assert!(base.num * bigger.den < bigger.num * base.den);
    }
}

#[test]
fn flat_mesh_is_degenerate() {
    let vertices = vec![vert(0, 0, 0), vert(1, 0, 0), vert(0, 1, 0)];
    let faces = vec![tri(0, 1, 2)];
    let m = Mesh::new(vertices, faces).unwrap();
    let v = calculate_volume(&m);
    let ten = Rat::new(10, 1);
    let r = scale_volume(&v, &ten, &ten, &ten, &m);
    assert_eq!(r.unwrap_err(), WeightError::DegenerateGeometry);
}

#[test]
fn empty_mesh_is_degenerate() {
    let m = Mesh::new(vec![], vec![]).unwrap();
    let v = calculate_volume(&m);
    let ten = Rat::new(10, 1);
    let r = scale_volume(&v, &ten, &ten, &ten, &m);
    assert_eq!(r.unwrap_err(), WeightError::DegenerateGeometry);
}

#[test]
fn out_of_bounds_face_is_rejected() {
    let vertices = vec![vert(0, 0, 0), vert(1, 0, 0), vert(0, 1, 0)];
    let faces = vec![tri(0, 1, 3)];
    assert_eq!(Mesh::new(vertices, faces).unwrap_err(), WeightError::InvalidMesh);
}

#[test]
fn off_grid_coordinate_is_rejected() {
    let vertices = vec![vert(0, 0, 0), vert(1_000_001, 0, 0), vert(0, 1, 0)];
    let faces = vec![tri(0, 1, 2)];
    assert_eq!(Mesh::new(vertices, faces).unwrap_err(), WeightError::InvalidMesh);
}

#[test]
fn weight_reference_scenario() {
    // 1000 mm^3, 20 % infill, PLA: 0.23 cm^3 solid + 0.77 * 0.20 cm^3
    // infill = 0.384 cm^3; times 1.24 g/cm^3 = 0.47616 g.
    let volume = Rat::new(1000, 1);
    let infill = Rat::new(20, 1);
    let density = Material::Pla.density();
    let w = calculate_weight(&volume, &infill, &density).unwrap();
    assert!(rat_value_eq(&w, 47616, 100000));
    let resp = WeightResponse::from_weight(&w).unwrap();
    assert_eq!(resp.weight_grams, "0.48");
}

#[test]
fn weight_at_boundary_infill() {
    let volume = Rat::new(1000, 1);
    let density = Material::Pla.density();
    let at_zero = calculate_weight(&volume, &Rat::new(0, 1), &density).unwrap();
    assert!(rat_value_eq(&at_zero, 2852, 10000));
    let at_hundred = calculate_weight(&volume, &Rat::new(100, 1), &density).unwrap();
    assert!(rat_value_eq(&at_hundred, 124, 100));
}

#[test]
fn out_of_range_infill_is_rejected() {
    let volume = Rat::new(1000, 1);
    let density = Material::Pla.density();
    let low = calculate_weight(&volume, &Rat::new(-1, 1), &density);
    assert_eq!(low.unwrap_err(), WeightError::OutOfRangeInfill);
    let high = calculate_weight(&volume, &Rat::new(101, 1), &density);
    assert_eq!(high.unwrap_err(), WeightError::OutOfRangeInfill);
    let slightly_high = calculate_weight(&volume, &Rat::new(201, 2), &density);
    assert_eq!(slightly_high.unwrap_err(), WeightError::OutOfRangeInfill);
}

#[test]
fn weight_is_monotone_in_infill() {
    let volume = Rat::new(1000, 1);
    let density = Material::Pla.density();
    let lighter = calculate_weight(&volume, &Rat::new(20, 1), &density).unwrap();
    let heavier = calculate_weight(&volume, &Rat::new(30, 1), &density).unwrap();
    assert!(lighter.num * heavier.den < heavier.num * lighter.den);
}

#[test]
fn material_names_are_case_insensitive() {
    assert_eq!(Material::from_name("abs"), Material::Abs);
    assert_eq!(Material::from_name("ABS"), Material::Abs);
    assert_eq!(Material::from_name("AbS"), Material::Abs);
    assert_eq!(Material::from_name("PETG"), Material::Petg);
    assert_eq!(Material::from_name("petg"), Material::Petg);
    assert_eq!(Material::from_name("Tpu"), Material::Tpu);
}

#[test]
fn unknown_material_defaults_to_pla() {
    assert_eq!(Material::from_name("nylon"), Material::Pla);
    assert_eq!(Material::from_name(""), Material::Pla);
    assert_eq!(Material::from_name("pla"), Material::Pla);
    assert_eq!(Material::from_optional_name(None), Material::Pla);
    assert_eq!(Material::from_optional_name(Some("petg")), Material::Petg);
    let d = Material::from_name("granite").density();
    assert_eq!((d.num, d.den), (124, 100));
}

#[test]
fn material_densities() {
    let pla = Material::Pla.density();
    assert!(rat_value_eq(&pla, 124, 100));
    let abs = Material::Abs.density();
    assert!(rat_value_eq(&abs, 104, 100));
    let petg = Material::Petg.density();
    assert!(rat_value_eq(&petg, 127, 100));
    let tpu = Material::Tpu.density();
    assert!(rat_value_eq(&tpu, 121, 100));
}

#[test]
fn pipeline_on_unit_cube() {
    let m = unit_cube();
    let ten = Rat::new(10, 1);
    let infill = Rat::new(20, 1);
    let w = calculate_weight_from_mesh(&m, &ten, &ten, &ten, &infill, Material::Pla).unwrap();
    assert!(rat_value_eq(&w, 47616, 100000));
    let resp = WeightResponse::from_weight(&w).unwrap();
    assert_eq!(resp.weight_grams, "0.48");
}

#[test]
fn pipeline_rejects_out_of_range_infill() {
    let m = unit_cube();
    let ten = Rat::new(10, 1);
    let infill = Rat::new(101, 1);
    let r = calculate_weight_from_mesh(&m, &ten, &ten, &ten, &infill, Material::Pla);
    assert_eq!(r.unwrap_err(), WeightError::OutOfRangeInfill);
}

#[test]
fn formatting_rounds_and_signs() {
    let resp = WeightResponse::from_weight(&Rat::new(-1, 2)).unwrap();
    assert_eq!(resp.weight_grams, "-0.50");
    let resp = WeightResponse::from_weight(&Rat::new(1, 3)).unwrap();
    assert_eq!(resp.weight_grams, "0.33");
    let resp = WeightResponse::from_weight(&Rat::new(1, 200)).unwrap();
    assert_eq!(resp.weight_grams, "0.01");
    let resp = WeightResponse::from_weight(&Rat::new(123456, 100)).unwrap();
    assert_eq!(resp.weight_grams, "1234.56");
    let resp = WeightResponse::from_weight(&Rat::new(0, 1)).unwrap();
    assert_eq!(resp.weight_grams, "0.00");
}
