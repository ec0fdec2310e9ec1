use geodesic_mesh::error::MeshError;
use geodesic_mesh::grid::MAX_DETAIL;
use geodesic_mesh::icosahedron::{corners, faces, Coord, BASE_FACE_COUNT, BASE_VERTEX_COUNT};
use geodesic_mesh::material::{
    flatten_ambient, flatten_colors, flatten_diffuse, flatten_shininess, flatten_specular,
    generate_shape, get_mesh_material, Material,
};
use geodesic_mesh::mesh::{flatten_attributes, flatten_cells, flatten_vertices, Mesh};
use geodesic_mesh::normals::incident_lists;
use geodesic_mesh::polyhedron::Polyhedron;
use geodesic_mesh::shading::{face_normals, place_vertices, vertex_normals};
use geodesic_mesh::triangle::Triangle;
use geodesic_mesh::vertex::{Blend, GridPoint, Ratio, Vertex};

fn point(row: usize, col: usize, cols: usize) -> GridPoint {
    GridPoint { a: 0, b: 11, c: 5, row, col, cols }
}

#[test]
fn triangle_new_keeps_the_corner_order() {
    let t = Triangle::new(3, 1, 2);
    assert_eq!(t, Triangle { a: 3, b: 1, c: 2 });
    assert_eq!((t.a, t.b, t.c), (3, 1, 2));
}

#[test]
fn the_base_solid_has_twelve_corners_and_twenty_faces() {
    let cs = corners();
    let fs = faces();
    assert_eq!(cs.len(), 12);
    assert_eq!(fs.len(), 20);
    assert_eq!(BASE_VERTEX_COUNT, 12);
    assert_eq!(BASE_FACE_COUNT, 20);
    assert_eq!(fs[0], Triangle::new(0, 11, 5));
    assert_eq!(fs[19], Triangle::new(9, 8, 1));
    assert_eq!((cs[0].x, cs[0].y, cs[0].z), (Coord::NegOne, Coord::Phi, Coord::Zero));
    assert_eq!((cs[4].x, cs[4].y, cs[4].z), (Coord::Zero, Coord::NegOne, Coord::Phi));
    assert_eq!((cs[11].x, cs[11].y, cs[11].z), (Coord::NegPhi, Coord::Zero, Coord::One));
    for i in 0..12 {
        for j in 0..i {
            assert_ne!(cs[i], cs[j]);
        }
    }
}

#[test]
fn the_base_solid_is_a_closed_surface() {
    let fs = faces();
    let mut edges: Vec<(usize, usize)> = Vec::new();
    let mut uses = [0usize; 12];
    for f in &fs {
        assert!(f.a < 12 && f.b < 12 && f.c < 12);
        assert!(f.a != f.b && f.b != f.c && f.c != f.a);
        edges.push((f.a, f.b));
        edges.push((f.b, f.c));
        edges.push((f.c, f.a));
        uses[f.a] += 1;
        uses[f.b] += 1;
        uses[f.c] += 1;
    }
    assert_eq!(edges.len(), 60);
    for &(u, v) in &edges {
        assert_eq!(edges.iter().filter(|&&e| e == (u, v)).count(), 1);
        assert_eq!(edges.iter().filter(|&&e| e == (v, u)).count(), 1);
    }
    assert!(uses.iter().all(|&n| n == 5));
}

#[test]
fn blend_names_both_interpolation_steps() {
    assert_eq!(
        point(1, 2, 4).blend(),
        Blend { toward_apex: Ratio { num: 1, den: 4 }, across: Some(Ratio { num: 2, den: 3 }) }
    );
    assert_eq!(
        point(0, 0, 1).blend(),
        Blend { toward_apex: Ratio { num: 0, den: 1 }, across: Some(Ratio { num: 0, den: 1 }) }
    );
    assert_eq!(
        point(0, 8, 8).blend(),
        Blend { toward_apex: Ratio { num: 0, den: 8 }, across: Some(Ratio { num: 8, den: 8 }) }
    );
    assert_eq!(
        point(3, 1, 4).blend(),
        Blend { toward_apex: Ratio { num: 3, den: 4 }, across: Some(Ratio { num: 1, den: 1 }) }
    );
}

#[test]
fn blend_at_the_apex_has_no_second_step() {
    assert_eq!(
        point(4, 0, 4).blend(),
        Blend { toward_apex: Ratio { num: 4, den: 4 }, across: None }
    );
    assert_eq!(
        point(1, 0, 1).blend(),
        Blend { toward_apex: Ratio { num: 1, den: 1 }, across: None }
    );
}

#[test]
fn detail_zero_has_one_triangle_per_face() {
    let solid = Polyhedron::regular_isocahedron(0, 7u8).unwrap();
    assert_eq!(solid.detail(), 0);
    assert_eq!(solid.attribute(), 7);
    assert_eq!(solid.vertices().len(), 60);
    assert_eq!(solid.triangles().len(), 20);
    let base = faces();
    for f in 0..20 {
        assert_eq!(solid.triangles()[f], Triangle::new(3 * f + 1, 3 * f + 2, 3 * f));
        let expected = [(0, 0), (0, 1), (1, 0)];
        for k in 0..3 {
            let v = solid.vertices()[3 * f + k];
            assert_eq!(
                v.position,
                GridPoint {
                    a: base[f].a,
                    b: base[f].b,
                    c: base[f].c,
                    row: expected[k].0,
                    col: expected[k].1,
                    cols: 1
                }
            );
            assert_eq!(v.attribute, 7);
        }
    }
}

#[test]
fn detail_one_triangulates_each_grid_in_strips() {
    let solid = Polyhedron::regular_isocahedron(1, ()).unwrap();
    assert_eq!(solid.vertices().len(), 120);
    assert_eq!(solid.triangles().len(), 80);
    let rows_and_cols = [(0, 0), (0, 1), (0, 2), (1, 0), (1, 1), (2, 0)];
    for (k, (row, col)) in rows_and_cols.iter().enumerate() {
        assert_eq!(solid.vertices()[k].position, point(*row, *col, 2));
    }
    let first: Vec<Triangle> = solid.triangles()[0..4].to_vec();
    assert_eq!(
        first,
        vec![
            Triangle::new(1, 3, 0),
            Triangle::new(1, 4, 3),
            Triangle::new(2, 4, 1),
            Triangle::new(4, 5, 3),
        ]
    );
    let second: Vec<Triangle> = solid.triangles()[4..8].to_vec();
    assert_eq!(
        second,
        vec![
            Triangle::new(7, 9, 6),
            Triangle::new(7, 10, 9),
            Triangle::new(8, 10, 7),
            Triangle::new(10, 11, 9),
        ]
    );
    assert_eq!(solid.vertices()[6].position, GridPoint { a: 0, b: 5, c: 1, row: 0, col: 0, cols: 2 });
}

#[test]
fn detail_two_follows_the_strip_pattern() {
    let solid = Polyhedron::regular_isocahedron(2, ()).unwrap();
    let cols = 4usize;
    let start = |row: usize| row * (2 * cols + 3 - row) / 2;
    let mut expected: Vec<Triangle> = Vec::new();
    for i in 0..cols {
        for j in 0..2 * (cols - i) - 1 {
            let k = j / 2;
            if j % 2 == 0 {
                expected.push(Triangle::new(start(i) + k + 1, start(i + 1) + k, start(i) + k));
            } else {
                expected.push(Triangle::new(
                    start(i) + k + 1,
                    start(i + 1) + k + 1,
                    start(i + 1) + k,
                ));
            }
        }
    }
    assert_eq!(expected.len(), 16);
    assert_eq!(&solid.triangles()[0..16], &expected[..]);
    let shifted: Vec<Triangle> =
        expected.iter().map(|t| Triangle::new(t.a + 45, t.b + 45, t.c + 45)).collect();
    assert_eq!(&solid.triangles()[48..64], &shifted[..]);
}

#[test]
fn the_finest_detail_is_built() {
    let solid = Polyhedron::regular_isocahedron(MAX_DETAIL, ()).unwrap();
    assert_eq!(MAX_DETAIL, 8);
    assert_eq!(solid.triangles().len(), 1_310_720);
    assert_eq!(solid.vertices().len(), 663_060);
    let n = solid.vertices().len();
    assert!(solid.triangles().iter().all(|t| t.a < n && t.b < n && t.c < n));
    let last = solid.vertices()[n - 1].position;
    assert_eq!(last, GridPoint { a: 9, b: 8, c: 1, row: 256, col: 0, cols: 256 });
}

#[test]
fn a_detail_above_the_limit_is_an_error() {
    assert!(matches!(
        Polyhedron::regular_isocahedron(MAX_DETAIL + 1, ()),
        Err(MeshError::InvalidDetail)
    ));
    assert!(matches!(Polyhedron::regular_isocahedron(1000, 1u8), Err(MeshError::InvalidDetail)));
    assert!(Polyhedron::regular_isocahedron(MAX_DETAIL - 1, ()).is_ok());
}

#[test]
fn incident_lists_follow_triangle_order() {
    let triangles = vec![
        Triangle::new(0, 1, 2),
        Triangle::new(2, 1, 3),
        Triangle::new(3, 3, 0),
        Triangle::new(1, 0, 2),
    ];
    let lists = incident_lists(&triangles, 5);
    assert_eq!(
        lists,
        vec![vec![0, 2, 3], vec![0, 1, 3], vec![0, 1, 3], vec![1, 2, 2], vec![]]
    );
}

#[test]
fn incident_lists_of_nothing_are_empty() {
    let lists = incident_lists(&Vec::new(), 3);
    assert_eq!(lists, vec![Vec::<usize>::new(), Vec::new(), Vec::new()]);
    assert_eq!(incident_lists(&Vec::new(), 0).len(), 0);
}

#[test]
fn grid_vertices_meet_at_most_six_triangles() {
    let solid = Polyhedron::regular_isocahedron(2, ()).unwrap();
    let lists = incident_lists(solid.triangles(), solid.vertices().len());
    assert_eq!(lists.len(), 300);
    assert!(lists.iter().all(|l| 1 <= l.len() && l.len() <= 6));
    // corners of a face: one triangle; inner points of the grid: six
    assert_eq!(lists[0], vec![0]);
    assert_eq!(lists[4], vec![6]);
    assert_eq!(lists[14], vec![15]);
    assert_eq!(lists[6].len(), 6);
    assert_eq!(lists[6], vec![1, 2, 3, 7, 8, 9]);
    let total: usize = lists.iter().map(|l| l.len()).sum();
    assert_eq!(total, 3 * 320);
}

#[test]
fn flatten_keeps_order_and_values() {
    let items = vec![[1i64, 2, 3], [4, 5, 6], [-7, 8, 9]];
    assert_eq!(flatten_vertices(&items), vec![1, 2, 3, 4, 5, 6, -7, 8, 9]);
    assert_eq!(flatten_vertices(&Vec::<[u8; 3]>::new()), Vec::<u8>::new());
    let cells = vec![Triangle::new(5, 0, 2), Triangle::new(4_000_000_000, 1, 1)];
    assert_eq!(flatten_cells(&cells), vec![5, 0, 2, 4_000_000_000, 1, 1]);
    let vertices = vec![
        Vertex { position: point(0, 0, 1), attribute: 'x' },
        Vertex { position: point(0, 1, 1), attribute: 'y' },
    ];
    assert_eq!(flatten_attributes(&vertices), vec!['x', 'y']);
}

#[test]
fn assemble_lays_out_parallel_buffers() {
    let vertices = vec![
        Vertex { position: point(0, 0, 1), attribute: 10u8 },
        Vertex { position: point(0, 1, 1), attribute: 11u8 },
        Vertex { position: point(1, 0, 1), attribute: 12u8 },
    ];
    let triangles = vec![Triangle::new(1, 2, 0), Triangle::new(0, 2, 1)];
    let positions = vec![[1, 2, 3], [4, 5, 6], [7, 8, 9]];
    let normals = vec![[0, 0, 1], [0, 1, 0], [1, 0, 0]];
    let mesh: Mesh<i32, u8> = Mesh::assemble(&vertices, &triangles, &positions, &normals).unwrap();
    assert_eq!(mesh.vertices, vec![1, 2, 3, 4, 5, 6, 7, 8, 9]);
    assert_eq!(mesh.normals, vec![0, 0, 1, 0, 1, 0, 1, 0, 0]);
    assert_eq!(mesh.indices, vec![1, 2, 0, 0, 2, 1]);
    assert_eq!(mesh.attributes, vec![10, 11, 12]);
    assert_eq!(mesh.index_count, 6);
}

#[test]
fn assemble_refuses_coordinate_lists_of_the_wrong_length() {
    let vertices = vec![
        Vertex { position: point(0, 0, 1), attribute: () },
        Vertex { position: point(0, 1, 1), attribute: () },
        Vertex { position: point(1, 0, 1), attribute: () },
    ];
    let triangles = vec![Triangle::new(1, 2, 0)];
    let three = vec![[1u8, 2, 3], [4, 5, 6], [7, 8, 9]];
    let two = vec![[1u8, 2, 3], [4, 5, 6]];
    let short: Result<Mesh<u8, ()>, MeshError> = Mesh::assemble(&vertices, &triangles, &two, &three);
    assert!(matches!(short, Err(MeshError::LengthMismatch)));
    let short: Result<Mesh<u8, ()>, MeshError> = Mesh::assemble(&vertices, &triangles, &three, &two);
    assert!(matches!(short, Err(MeshError::LengthMismatch)));
    let fine: Result<Mesh<u8, ()>, MeshError> = Mesh::assemble(&vertices, &triangles, &three, &three);
    assert!(fine.is_ok());
}

#[test]
fn an_empty_mesh_has_empty_buffers() {
    let mesh: Mesh<u8, u8> = Mesh::empty();
    assert!(mesh.vertices.is_empty());
    assert!(mesh.indices.is_empty());
    assert!(mesh.normals.is_empty());
    assert!(mesh.attributes.is_empty());
    assert_eq!(mesh.index_count, 0);
}

#[test]
fn shading_steps_hand_each_operation_its_inputs() {
    let solid = Polyhedron::regular_isocahedron(1, ()).unwrap();
    let place = |p: GridPoint| [p.a * 100 + p.row, p.b * 100 + p.col, p.c * 100 + p.cols];
    let positions = place_vertices(solid.vertices(), &place);
    assert_eq!(positions.len(), 120);
    assert_eq!(positions[0], [0, 1100, 502]);
    assert_eq!(positions[4], [1, 1101, 502]);
    assert_eq!(positions[119], [902, 800, 102]);
    let pick = |a: [usize; 3], b: [usize; 3], c: [usize; 3]| [a[1], b[1], c[0]];
    let per_face = face_normals(solid.triangles(), &positions, &pick);
    assert_eq!(per_face.len(), 80);
    // triangle 1 of the first face joins vertices 1, 4 and 3
    assert_eq!(per_face[1], [1101, 1101, 1]);
    let count = |parts: &Vec<[usize; 3]>| [parts.len(), parts.iter().map(|p| p[2]).sum(), 0];
    let per_vertex = vertex_normals(solid.triangles(), 120, &per_face, &count);
    assert_eq!(per_vertex.len(), 120);
    assert_eq!(per_vertex[1][0], 3);
    assert_eq!(per_vertex[0][0], 1);
    assert_eq!(per_vertex[1][1], per_face[0][2] + per_face[1][2] + per_face[2][2]);
}

fn material(seed: i32) -> Material<i32> {
    Material {
        ambient: [seed, seed + 1, seed + 2],
        diffuse: [seed + 10, seed + 11, seed + 12],
        specular: [seed + 20, seed + 21, seed + 22],
        shininess: seed + 30,
    }
}

#[test]
fn material_channels_are_parallel() {
    let materials = vec![material(100), material(200), material(300)];
    assert_eq!(flatten_ambient(&materials), vec![100, 101, 102, 200, 201, 202, 300, 301, 302]);
    assert_eq!(flatten_diffuse(&materials), vec![110, 111, 112, 210, 211, 212, 310, 311, 312]);
    assert_eq!(flatten_specular(&materials), vec![120, 121, 122, 220, 221, 222, 320, 321, 322]);
    assert_eq!(flatten_shininess(&materials), vec![130, 230, 330]);
    let channels = get_mesh_material(&materials);
    assert_eq!(channels.ambient, flatten_ambient(&materials));
    assert_eq!(channels.diffuse, flatten_diffuse(&materials));
    assert_eq!(channels.specular, flatten_specular(&materials));
    assert_eq!(channels.shininess, vec![130, 230, 330]);
    let none = get_mesh_material(&Vec::<Material<i32>>::new());
    assert!(none.ambient.is_empty() && none.diffuse.is_empty());
    assert!(none.specular.is_empty() && none.shininess.is_empty());
}

#[test]
fn colors_are_laid_out_four_per_vertex() {
    let colors = vec![[1u8, 2, 3, 4], [5, 6, 7, 8]];
    assert_eq!(flatten_colors(&colors), vec![1, 2, 3, 4, 5, 6, 7, 8]);
    assert_eq!(flatten_colors(&Vec::<[u8; 4]>::new()), Vec::<u8>::new());
}

#[test]
fn a_coloured_solid_becomes_a_shape() {
    let color = [9i16, 8, 7, 6];
    let solid = Polyhedron::regular_isocahedron(1, color).unwrap();
    let positions: Vec<[i16; 3]> = (0..120).map(|v| [v, v + 1, v + 2]).collect();
    let normals: Vec<[i16; 3]> = (0..120).map(|v| [-v, 0, v]).collect();
    let mesh = solid.generate_render_shape(&positions, &normals).unwrap();
    assert_eq!(mesh.vertices.len(), 360);
    assert_eq!(&mesh.vertices[0..6], &[0, 1, 2, 1, 2, 3]);
    assert_eq!(&mesh.normals[357..360], &[-119, 0, 119]);
    assert_eq!(mesh.indices.len(), 240);
    assert_eq!(&mesh.indices[0..6], &[1, 3, 0, 1, 4, 3]);
    assert_eq!(mesh.index_count, 240);
    assert_eq!(mesh.attributes, vec![color; 120]);
    let shape = generate_shape(mesh);
    assert_eq!(shape.vertices.len(), 360);
    assert_eq!(shape.normals.len(), 360);
    assert_eq!(shape.indices.len(), 240);
    assert_eq!(shape.index_count, 240);
    assert_eq!(shape.colors.len(), 480);
    assert_eq!(&shape.colors[0..8], &[9, 8, 7, 6, 9, 8, 7, 6]);
}

#[test]
fn a_solid_refuses_coordinates_of_the_wrong_length() {
    let solid = Polyhedron::regular_isocahedron(0, ()).unwrap();
    let sixty = vec![[0u8; 3]; 60];
    let twelve = vec![[0u8; 3]; 12];
    assert!(matches!(
        solid.generate_render_shape(&twelve, &sixty),
        Err(MeshError::LengthMismatch)
    ));
    assert!(matches!(
        solid.generate_render_shape(&sixty, &twelve),
        Err(MeshError::LengthMismatch)
    ));
    assert!(solid.generate_render_shape(&sixty, &sixty).is_ok());
}
