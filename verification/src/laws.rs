use vstd::prelude::*;
use vstd::arithmetic::div_mod::{lemma_div_pos_is_pos, lemma_fundamental_div_mod, lemma_mod_bound};
use vstd::arithmetic::power::{lemma_pow_distributes, pow};
use crate::grid::{
    face_triangle_count, face_vertex_count, grid_cols, grid_vertex, lemma_grid_cols,
    lemma_grid_point_at, lemma_grid_point_touched, lemma_solid_triangle_at,
    lemma_solid_triangles_len, lemma_solid_triangles_within, lemma_solid_vertex_at,
    lemma_solid_vertex_is_grid_point, lemma_solid_vertices_len, strip_len, strip_start,
    strip_triangle, triangle_count, vertex_count, MAX_DETAIL,
};
use crate::icosahedron::{base_faces, BASE_FACE_COUNT, BASE_VERTEX_COUNT};
use crate::normals::{incident_faces, lemma_incident_faces_complete};
use crate::polyhedron::Polyhedron;
use crate::triangle::all_within;
use crate::vertex::GridPoint;

verus! {

/// The counts of a solid expressed through its grid width.
pub proof fn lemma_count_formulas(detail: nat)
    ensures
        vertex_count(detail) == BASE_FACE_COUNT * face_vertex_count(grid_cols(detail)),
        triangle_count(detail) == BASE_FACE_COUNT * face_triangle_count(grid_cols(detail)),
{
    lemma_pow_distributes(2, 2, detail);
    assert(2int * 2int == 4int);
    assert(pow(2int * 2int, detail) == pow(4, detail));
}

/// A solid of detail `d` has exactly `20 * 4^d` triangles and
/// `20 * (2^d + 1) * (2^d + 2) / 2` vertices.
pub proof fn lemma_counts<A: Copy>(solid: Polyhedron<A>)
    requires
        solid.wf(),
    ensures
        solid.spec_vertices().len() == vertex_count(solid.spec_detail() as nat),
        solid.spec_triangles().len() == triangle_count(solid.spec_detail() as nat),
{
    let detail = solid.spec_detail() as nat;
    lemma_grid_cols(detail);
    lemma_count_formulas(detail);
    lemma_solid_vertices_len(base_faces(), grid_cols(detail), solid.spec_attribute());
    lemma_solid_triangles_len(base_faces().len() as int, grid_cols(detail));
}

/// The counts of every solid that is built fit the index types of a mesh.
pub proof fn lemma_counts_bounded(detail: nat)
    requires
        detail <= MAX_DETAIL,
    ensures
        0 < vertex_count(detail) <= 663_060,
        0 < triangle_count(detail) <= 1_310_720,
{
    let cols = grid_cols(detail);
    lemma_grid_cols(detail);
    lemma_count_formulas(detail);
    assert(2 <= (cols + 1) * (cols + 2) <= 257 * 258) by (nonlinear_arith)
        requires
            1 <= cols <= 256,
    ;
    assert(1 <= cols * cols <= 256 * 256) by (nonlinear_arith)
        requires
            1 <= cols <= 256,
    ;
}

/// Every corner of every triangle of a solid is the index of one of its
/// vertices.
pub proof fn lemma_indices_in_range<A: Copy>(solid: Polyhedron<A>)
    requires
        solid.wf(),
    ensures
        all_within(solid.spec_triangles(), solid.spec_vertices().len() as int),
{
    let detail = solid.spec_detail() as nat;
    let cols = grid_cols(detail);
    lemma_grid_cols(detail);
    lemma_counts(solid);
    lemma_counts_bounded(detail);
    lemma_count_formulas(detail);
    assert forall|t: int| 0 <= t < solid.spec_triangles().len() implies (
    #[trigger] solid.spec_triangles()[t]).within(solid.spec_vertices().len() as int) by {
        lemma_solid_triangles_within(BASE_FACE_COUNT as int, cols, t);
    }
}

/// Two solids built at the same detail with the same attribute have the
/// same vertices and the same triangles, entry for entry.
pub proof fn lemma_rebuild_is_identical<A: Copy>(first: Polyhedron<A>, second: Polyhedron<A>)
    requires
        first.wf(),
        second.wf(),
        first.spec_detail() == second.spec_detail(),
        first.spec_attribute() == second.spec_attribute(),
    ensures
        first.spec_vertices() == second.spec_vertices(),
        first.spec_triangles() == second.spec_triangles(),
{
}

/// One more level of detail gives strictly more vertices and strictly more
/// triangles.
pub proof fn lemma_finer_is_larger<A: Copy>(coarse: Polyhedron<A>, fine: Polyhedron<A>)
    requires
        coarse.wf(),
        fine.wf(),
        fine.spec_detail() == coarse.spec_detail() + 1,
    ensures
        coarse.spec_vertices().len() < fine.spec_vertices().len(),
        coarse.spec_triangles().len() < fine.spec_triangles().len(),
{
    let detail = coarse.spec_detail() as nat;
    lemma_counts(coarse);
    lemma_counts(fine);
    lemma_counts_grow(detail);
}

/// The counts grow strictly with the detail level.
pub proof fn lemma_counts_grow(detail: nat)
    ensures
        vertex_count(detail) < vertex_count(detail + 1),
        triangle_count(detail) < triangle_count(detail + 1),
{
    let cols = grid_cols(detail);
    lemma_grid_cols(detail);
    lemma_count_formulas(detail);
    lemma_count_formulas(detail + 1);
    assert((cols + 1) * (cols + 2) + 2 <= (2 * cols + 1) * (2 * cols + 2)) by (nonlinear_arith)
        requires
            1 <= cols,
    ;
    assert(cols * cols < (2 * cols) * (2 * cols)) by (nonlinear_arith)
        requires
            1 <= cols,
    ;
}

/// Every vertex of a solid carries the solid's attribute and lies on the
/// grid of one of the twenty faces.
pub proof fn lemma_vertices_uniform<A: Copy>(solid: Polyhedron<A>, v: int)
    requires
        solid.wf(),
        0 <= v < solid.spec_vertices().len(),
    ensures
        solid.spec_vertices()[v].attribute == solid.spec_attribute(),
        solid.spec_vertices()[v].position.wf(),
        solid.spec_vertices()[v].position.cols == grid_cols(solid.spec_detail() as nat),
        solid.spec_vertices()[v].position.a < BASE_VERTEX_COUNT,
        solid.spec_vertices()[v].position.b < BASE_VERTEX_COUNT,
        solid.spec_vertices()[v].position.c < BASE_VERTEX_COUNT,
{
    let detail = solid.spec_detail() as nat;
    lemma_grid_cols(detail);
    lemma_solid_vertex_is_grid_point(base_faces(), grid_cols(detail), solid.spec_attribute(), v);
}

/// The corners of triangle `j` in strip `row` of face `f` are the grid
/// points the triangulation names: for even `j` the points (`row`, k + 1),
/// (`row` + 1, k) and (`row`, k), for odd `j` the points (`row`, k + 1),
/// (`row` + 1, k + 1) and (`row` + 1, k), where k is half of `j`, rounded
/// down.
pub proof fn lemma_triangle_corners<A: Copy>(solid: Polyhedron<A>, f: int, row: int, j: int)
    requires
        solid.wf(),
        0 <= f < BASE_FACE_COUNT,
        0 <= row < grid_cols(solid.spec_detail() as nat),
        0 <= j < strip_len(grid_cols(solid.spec_detail() as nat), row),
    ensures
        ({
            let cols = grid_cols(solid.spec_detail() as nat);
            let t = f * face_triangle_count(cols) + strip_start(cols, row) + j;
            let k = j / 2;
            let up = if j % 2 == 0 { 0int } else { 1int };
            let face = base_faces()[f];
            let attribute = solid.spec_attribute();
            &&& 0 <= t < solid.spec_triangles().len()
            &&& solid.spec_triangles()[t].within(solid.spec_vertices().len() as int)
            &&& solid.spec_vertices()[solid.spec_triangles()[t].a as int] == grid_vertex(
                face,
                cols,
                row,
                k + 1,
                attribute,
            )
            &&& solid.spec_vertices()[solid.spec_triangles()[t].b as int] == grid_vertex(
                face,
                cols,
                row + 1,
                k + up,
                attribute,
            )
            &&& solid.spec_vertices()[solid.spec_triangles()[t].c as int] == grid_vertex(
                face,
                cols,
                row + up,
                k,
                attribute,
            )
        }),
{
    let detail = solid.spec_detail() as nat;
    let cols = grid_cols(detail);
    let k = j / 2;
    let attribute = solid.spec_attribute();
    lemma_grid_cols(detail);
    lemma_counts(solid);
    lemma_counts_bounded(detail);
    lemma_count_formulas(detail);
    lemma_indices_in_range(solid);
    lemma_solid_triangle_at(BASE_FACE_COUNT as int, cols, f, row, j);
    lemma_solid_vertex_at(base_faces(), cols, f, row, k + 1, attribute);
    lemma_solid_vertex_at(base_faces(), cols, f, row, k, attribute);
    lemma_solid_vertex_at(base_faces(), cols, f, row + 1, k, attribute);
    if j % 2 == 1 {
        lemma_solid_vertex_at(base_faces(), cols, f, row + 1, k + 1, attribute);
    }
    let t = f * face_triangle_count(cols) + strip_start(cols, row) + j;
    assert(solid.spec_triangles()[t] == strip_triangle(f * face_vertex_count(cols), cols, row, j));
}

/// Every vertex of a solid is a corner of at least one of its triangles,
/// so the normal of every vertex has a face normal to start from.
pub proof fn lemma_every_vertex_used<A: Copy>(solid: Polyhedron<A>, v: int)
    requires
        solid.wf(),
        0 <= v < solid.spec_vertices().len(),
    ensures
        incident_faces(solid.spec_triangles(), v).len() > 0,
{
    let detail = solid.spec_detail() as nat;
    let cols = grid_cols(detail);
    let g = face_vertex_count(cols);
    lemma_grid_cols(detail);
    lemma_counts(solid);
    lemma_counts_bounded(detail);
    lemma_count_formulas(detail);
    let f = v / g;
    let local = v % g;
    lemma_fundamental_div_mod(v, g);
    lemma_div_pos_is_pos(v, g);
    lemma_mod_bound(v, g);
    assert(f < BASE_FACE_COUNT) by (nonlinear_arith)
        requires
            v == g * f + local,
            0 <= local,
            0 < g,
            v < BASE_FACE_COUNT * g,
    ;
    assert(0 <= f * g && f * g + g <= BASE_FACE_COUNT * g) by (nonlinear_arith)
        requires
            0 <= f < BASE_FACE_COUNT,
            0 < g,
    ;
    assert(v == f * g + local) by (nonlinear_arith)
        requires
            v == g * f + local,
    ;
    let point = lemma_grid_point_at(cols, local);
    let at = lemma_grid_point_touched(f * g, cols, point.0, point.1);
    lemma_solid_triangle_at(BASE_FACE_COUNT as int, cols, f, at.0, at.1);
    let t = f * face_triangle_count(cols) + strip_start(cols, at.0) + at.1;
    assert(solid.spec_triangles()[t] == strip_triangle(f * g, cols, at.0, at.1));
    lemma_incident_faces_complete(solid.spec_triangles(), v, t);
}

/// Twice the signed area of the triangle `a`, `b`, `c` on the grid, with
/// columns counted along one axis and rows along the other.
pub open spec fn grid_winding(a: GridPoint, b: GridPoint, c: GridPoint) -> int {
    (b.col - a.col) * (c.row - a.row) - (b.row - a.row) * (c.col - a.col)
}

/// Every triangle cut from a face winds the way the face does: on the grid
/// its corners `a`, `b`, `c` enclose the signed area one half, as the face's
/// own corners, taken at (0, 0), (cols, 0) and (0, cols), enclose a positive
/// area.
pub proof fn lemma_triangle_winding<A: Copy>(solid: Polyhedron<A>, f: int, row: int, j: int)
    requires
        solid.wf(),
        0 <= f < BASE_FACE_COUNT,
        0 <= row < grid_cols(solid.spec_detail() as nat),
        0 <= j < strip_len(grid_cols(solid.spec_detail() as nat), row),
    ensures
        ({
            let cols = grid_cols(solid.spec_detail() as nat);
            let t = solid.spec_triangles()[f * face_triangle_count(cols) + strip_start(cols, row)
                + j];
            grid_winding(
                solid.spec_vertices()[t.a as int].position,
                solid.spec_vertices()[t.b as int].position,
                solid.spec_vertices()[t.c as int].position,
            ) == 1
        }),
{
    let cols = grid_cols(solid.spec_detail() as nat);
    lemma_grid_cols(solid.spec_detail() as nat);
    lemma_triangle_corners(solid, f, row, j);
    let t = solid.spec_triangles()[f * face_triangle_count(cols) + strip_start(cols, row) + j];
    let a = solid.spec_vertices()[t.a as int].position;
    let b = solid.spec_vertices()[t.b as int].position;
    let c = solid.spec_vertices()[t.c as int].position;
    let k = j / 2;
    if j % 2 == 0 {
        assert(b.col - a.col == -1 && c.row - a.row == 0);
        assert(b.row - a.row == 1 && c.col - a.col == -1);
    } else {
        assert(b.col - a.col == 0 && c.row - a.row == 1);
        assert(b.row - a.row == 1 && c.col - a.col == -1);
    }
}

} // verus!
