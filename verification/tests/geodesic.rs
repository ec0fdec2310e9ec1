use geodesic_mesh::error::MeshError;
use geodesic_mesh::grid::MAX_DETAIL;
use geodesic_mesh::icosahedron::{corners, Coord};
use geodesic_mesh::material::{generate_shape, get_mesh_material, Material};
use geodesic_mesh::sphere::Sphere;
use geodesic_mesh::vertex::GridPoint;
use lerp::Lerp;
use nalgebra_glm as glm;

const EPSILON: f32 = 1e-5;

fn coordinate(c: Coord) -> f32 {
    let phi = (1.0 + (5.0 as f32).sqrt()) / 2.0;
    match c {
        Coord::Zero => 0.0,
        Coord::One => 1.0,
        Coord::NegOne => -1.0,
        Coord::Phi => phi,
        Coord::NegPhi => -phi,
    }
}

fn corner(index: usize) -> glm::Vec3 {
    let c = corners()[index];
    glm::vec3(coordinate(c.x), coordinate(c.y), coordinate(c.z))
}

fn place_on(radius: f32) -> impl Fn(GridPoint) -> [f32; 3] {
    move |p: GridPoint| {
        let a = corner(p.a);
        let b = corner(p.b);
        let c = corner(p.c);
        let blend = p.blend();
        let t = blend.toward_apex.num as f32 / blend.toward_apex.den as f32;
        let aj = Lerp::lerp(a, c, t);
        let bj = Lerp::lerp(b, c, t);
        let point = match blend.across {
            None => aj,
            Some(r) => Lerp::lerp(aj, bj, r.num as f32 / r.den as f32),
        };
        let on_sphere = point.normalize() * radius;
        [on_sphere.x, on_sphere.y, on_sphere.z]
    }
}

fn face_normal(a: [f32; 3], b: [f32; 3], c: [f32; 3]) -> [f32; 3] {
    let a = glm::vec3(a[0], a[1], a[2]);
    let ab = glm::vec3(b[0], b[1], b[2]) - a;
    let ac = glm::vec3(c[0], c[1], c[2]) - a;
    let n = glm::normalize(&glm::cross(&ab, &ac));
    [n.x, n.y, n.z]
}

fn blend(parts: &Vec<[f32; 3]>) -> [f32; 3] {
    let mut sum = glm::vec3(0.0, 0.0, 0.0);
    for p in parts {
        sum += glm::vec3(p[0], p[1], p[2]);
    }
    if sum.magnitude() > 0.0 {
        let n = glm::normalize(&sum);
        [n.x, n.y, n.z]
    } else {
        [0.0, 0.0, 1.0]
    }
}

fn build(detail: u32, radius: f32, color: [f32; 4]) -> Sphere<f32, [f32; 4]> {
    match Sphere::new(detail, color, &place_on(radius), &face_normal, &blend) {
        Ok(s) => s,
        Err(e) => panic!("detail {} refused: {:?}", detail, e),
    }
}

fn magnitude(v: &[f32]) -> f32 {
    (v[0] * v[0] + v[1] * v[1] + v[2] * v[2]).sqrt()
}

fn white() -> [f32; 4] {
    [1.0, 1.0, 1.0, 1.0]
}

#[test]
fn detail_zero_is_the_scaled_icosahedron() {
    let sphere = build(0, 2.0, white());
    let mesh = sphere.mesh();
    assert_eq!(sphere.solid().triangles().len(), 20);
    assert_eq!(mesh.indices.len(), 60);
    assert_eq!(mesh.index_count, 60);
    assert_eq!(mesh.attributes.len(), 60);
    assert_eq!(mesh.vertices.len(), 180);
    assert_eq!(mesh.normals.len(), 180);
    let mut distinct: Vec<[f32; 3]> = Vec::new();
    for p in sphere.positions() {
        assert!((magnitude(p) - 2.0).abs() < EPSILON);
        if !distinct.iter().any(|q| {
            (q[0] - p[0]).abs() < EPSILON
                && (q[1] - p[1]).abs() < EPSILON
                && (q[2] - p[2]).abs() < EPSILON
        }) {
            distinct.push(*p);
        }
    }
    assert_eq!(distinct.len(), 12);
    for i in 0..12 {
        let c = corner(i).normalize() * 2.0;
        assert!(distinct.iter().any(|q| {
            (q[0] - c.x).abs() < EPSILON
                && (q[1] - c.y).abs() < EPSILON
                && (q[2] - c.z).abs() < EPSILON
        }));
    }
}

#[test]
fn detail_zero_first_face_keeps_its_corners() {
    let sphere = build(0, 1.0, white());
    let positions = sphere.positions();
    let expected = [corner(0).normalize(), corner(11).normalize(), corner(5).normalize()];
    for v in 0..3 {
        assert!((positions[v][0] - expected[v].x).abs() < EPSILON);
        assert!((positions[v][1] - expected[v].y).abs() < EPSILON);
        assert!((positions[v][2] - expected[v].z).abs() < EPSILON);
    }
    assert_eq!(&sphere.mesh().indices[0..3], &[1, 2, 0]);
}

#[test]
fn counts_follow_the_detail_level() {
    let expected: [(u32, usize, usize); 4] =
        [(0, 60, 20), (1, 120, 80), (2, 300, 320), (3, 900, 1280)];
    for (detail, vertices, triangles) in expected {
        let sphere = build(detail, 1.0, white());
        assert_eq!(sphere.solid().vertices().len(), vertices);
        assert_eq!(sphere.solid().triangles().len(), triangles);
        let cols = 1usize << detail;
        assert_eq!(vertices, 20 * ((cols + 1) * (cols + 2) / 2));
        assert_eq!(triangles, 20 * 4usize.pow(detail));
        let mesh = sphere.mesh();
        assert_eq!(mesh.vertices.len(), 3 * vertices);
        assert_eq!(mesh.normals.len(), 3 * vertices);
        assert_eq!(mesh.attributes.len(), vertices);
        assert_eq!(mesh.indices.len(), 3 * triangles);
        assert_eq!(mesh.index_count as usize, 3 * triangles);
    }
}

#[test]
fn every_position_lies_on_the_sphere() {
    for detail in 0..=4 {
        for radius in [0.5, 1.0, 2.0, 37.5] {
            let sphere = build(detail, radius, white());
            for p in sphere.mesh().vertices.chunks(3) {
                assert!((magnitude(p) - radius).abs() < radius * EPSILON);
            }
        }
    }
}

#[test]
fn every_normal_is_a_unit_vector_pointing_outward() {
    for detail in 0..=4 {
        let sphere = build(detail, 3.0, white());
        let mesh = sphere.mesh();
        for (n, p) in mesh.normals.chunks(3).zip(mesh.vertices.chunks(3)) {
            assert!((magnitude(n) - 1.0).abs() < EPSILON);
            assert!(n[0] * p[0] + n[1] * p[1] + n[2] * p[2] > 0.0);
        }
        for n in sphere.triangle_normals() {
            assert!((magnitude(n) - 1.0).abs() < EPSILON);
        }
    }
}

#[test]
fn every_index_names_a_vertex() {
    for detail in 0..=5 {
        let sphere = build(detail, 1.0, white());
        let mesh = sphere.mesh();
        let count = mesh.attributes.len() as u32;
        assert!(mesh.indices.iter().all(|&i| i < count));
        let mut used = vec![false; count as usize];
        for &i in &mesh.indices {
            used[i as usize] = true;
        }
        assert!(used.iter().all(|&u| u));
    }
}

#[test]
fn rebuilding_at_the_same_detail_changes_nothing() {
    let mut sphere = build(3, 1.5, white());
    let vertices = sphere.mesh().vertices.clone();
    let normals = sphere.mesh().normals.clone();
    let indices = sphere.mesh().indices.clone();
    let attributes = sphere.mesh().attributes.clone();
    let result = sphere.generate_with_new_detail(3, &place_on(1.5), &face_normal, &blend);
    assert_eq!(result, Ok(()));
    assert_eq!(sphere.mesh().vertices, vertices);
    assert_eq!(sphere.mesh().normals, normals);
    assert_eq!(sphere.mesh().indices, indices);
    assert_eq!(sphere.mesh().attributes, attributes);
    assert_eq!(sphere.mesh().index_count, 3 * 1280);
    let again = build(3, 1.5, white());
    assert_eq!(again.mesh().vertices, vertices);
    assert_eq!(again.mesh().normals, normals);
    assert_eq!(again.mesh().indices, indices);
}

#[test]
fn one_more_level_gives_more_vertices_and_triangles() {
    let mut sphere = build(0, 1.0, white());
    for detail in 1..=5 {
        let vertices = sphere.solid().vertices().len();
        let triangles = sphere.solid().triangles().len();
        let result = sphere.generate_with_new_detail(detail, &place_on(1.0), &face_normal, &blend);
        assert_eq!(result, Ok(()));
        assert_eq!(sphere.detail(), detail);
        assert!(sphere.solid().vertices().len() > vertices);
        assert!(sphere.solid().triangles().len() > triangles);
        assert_eq!(sphere.solid().triangles().len(), 4 * triangles);
    }
}

#[test]
fn detail_two_unit_sphere() {
    let sphere = build(2, 1.0, [0.2, 0.4, 0.6, 1.0]);
    assert_eq!(sphere.solid().triangles().len(), 320);
    assert_eq!(sphere.mesh().index_count, 960);
    for n in sphere.mesh().normals.chunks(3) {
        assert!((magnitude(n) - 1.0).abs() < EPSILON);
    }
}

#[test]
fn every_vertex_carries_the_material() {
    let material = [0.25, 0.5, 0.75, 1.0];
    let mut sphere = build(2, 1.0, material);
    assert_eq!(sphere.mesh_material(), material);
    assert!(sphere.mesh().attributes.iter().all(|a| *a == material));
    assert!(sphere.solid().vertices().iter().all(|v| v.attribute == material));
    let result = sphere.generate_with_new_detail(1, &place_on(1.0), &face_normal, &blend);
    assert_eq!(result, Ok(()));
    assert_eq!(sphere.mesh_material(), material);
    assert_eq!(sphere.mesh().attributes.len(), 120);
    assert!(sphere.mesh().attributes.iter().all(|a| *a == material));
}

#[test]
fn too_fine_a_detail_is_refused() {
    let refused: Result<Sphere<f32, [f32; 4]>, MeshError> =
        Sphere::new(MAX_DETAIL + 1, white(), &place_on(1.0), &face_normal, &blend);
    assert!(matches!(refused, Err(MeshError::InvalidDetail)));
    let refused: Result<Sphere<f32, [f32; 4]>, MeshError> =
        Sphere::new(u32::MAX, white(), &place_on(1.0), &face_normal, &blend);
    assert!(matches!(refused, Err(MeshError::InvalidDetail)));
}

#[test]
fn a_refused_rebuild_leaves_the_sphere_as_it_was() {
    let mut sphere = build(1, 1.0, white());
    let vertices = sphere.mesh().vertices.clone();
    let indices = sphere.mesh().indices.clone();
    let result = sphere.generate_with_new_detail(9, &place_on(1.0), &face_normal, &blend);
    assert_eq!(result, Err(MeshError::InvalidDetail));
    assert_eq!(sphere.detail(), 1);
    assert_eq!(sphere.mesh().vertices, vertices);
    assert_eq!(sphere.mesh().indices, indices);
    assert_eq!(sphere.mesh().index_count, 240);
}

#[test]
fn shared_grid_points_get_smoothed_normals() {
    let sphere = build(1, 1.0, white());
    let normals = sphere.normals();
    let face_normals = sphere.triangle_normals();
    // Vertex 1 of the first face is the middle of its lower edge: three of
    // the face's four triangles meet there, numbers 0, 1 and 2.
    let mut sum = glm::vec3(0.0, 0.0, 0.0);
    for t in 0..3 {
        sum += glm::vec3(face_normals[t][0], face_normals[t][1], face_normals[t][2]);
    }
    let expected = glm::normalize(&sum);
    assert_eq!(normals[1], [expected.x, expected.y, expected.z]);
    // Vertex 0 is a corner of the face: only triangle 0 touches it.
    assert_eq!(normals[0], face_normals[0]);
}

#[test]
fn a_coloured_sphere_becomes_a_shape() {
    let color = [0.1, 0.2, 0.3, 1.0];
    let sphere = build(1, 2.5, color);
    let vertices = sphere.mesh().vertices.clone();
    let normals = sphere.mesh().normals.clone();
    let indices = sphere.mesh().indices.clone();
    let shape = generate_shape(sphere.into_mesh());
    assert_eq!(shape.vertices, vertices);
    assert_eq!(shape.normals, normals);
    assert_eq!(shape.indices, indices);
    assert_eq!(shape.index_count, 240);
    assert_eq!(shape.colors.len(), 4 * 120);
    for c in shape.colors.chunks(4) {
        assert_eq!(c, &color[..]);
    }
}

#[test]
fn a_sphere_with_a_material_has_four_channels() {
    let material = Material {
        ambient: [1.0, 0.7, 0.81],
        diffuse: [1.0, 0.5, 0.31],
        specular: [0.5, 0.5, 0.5],
        shininess: 32.0,
    };
    let sphere: Sphere<f32, Material<f32>> =
        match Sphere::new(2, material, &place_on(1.0), &face_normal, &blend) {
            Ok(s) => s,
            Err(e) => panic!("refused: {:?}", e),
        };
    let channels = get_mesh_material(&sphere.mesh().attributes);
    assert_eq!(channels.ambient.len(), 900);
    assert_eq!(channels.diffuse.len(), 900);
    assert_eq!(channels.specular.len(), 900);
    assert_eq!(channels.shininess.len(), 300);
    assert!(channels.ambient.chunks(3).all(|c| c == &[1.0, 0.7, 0.81][..]));
    assert!(channels.diffuse.chunks(3).all(|c| c == &[1.0, 0.5, 0.31][..]));
    assert!(channels.specular.chunks(3).all(|c| c == &[0.5, 0.5, 0.5][..]));
    assert!(channels.shininess.iter().all(|&s| s == 32.0));
    assert_eq!(sphere.mesh().vertices.len(), 900);
    assert_eq!(sphere.mesh().normals.len(), 900);
}
