use vstd::prelude::*;
use vstd::arithmetic::power::{lemma_pow_increases, pow};
use crate::triangle::Triangle;
use crate::vertex::{GridPoint, Vertex};

verus! {

/// The finest subdivision that is built. One level more quadruples the
/// triangle count; at this level a solid has 1,310,720 triangles.
pub const MAX_DETAIL: u32 = 8;

/// Columns of the grid laid over one face: two to the power `detail`.
pub open spec fn grid_cols(detail: nat) -> int {
    pow(2, detail)
}

/// The widest grid that is built: two to the power `MAX_DETAIL`.
pub const MAX_COLS: usize = 256;

/// Two to the power `detail` doubles with each level and stays within
/// `MAX_COLS` up to `MAX_DETAIL`.
pub proof fn lemma_grid_cols(detail: nat)
    ensures
        grid_cols(0) == 1,
        grid_cols(detail + 1) == 2 * grid_cols(detail),
        1 <= grid_cols(detail),
        detail <= MAX_DETAIL ==> grid_cols(detail) <= MAX_COLS,
{
    reveal_with_fuel(pow, 10);
    assert(pow(2, 0) == 1);
    assert(pow(2, 8) == 256);
    lemma_pow_increases(2, 0, detail);
    if detail <= 8 {
        lemma_pow_increases(2, detail, 8);
    }
}

/// Vertices of the solid of detail `detail`: each of the twenty faces has
/// its own grid of `2^detail + 1` rows.
pub open spec fn vertex_count(detail: nat) -> int {
    20 * ((pow(2, detail) + 1) * (pow(2, detail) + 2) / 2)
}

/// Triangles of the solid of detail `detail`: each of the twenty faces is
/// cut into `4^detail`.
pub open spec fn triangle_count(detail: nat) -> int {
    20 * pow(4, detail)
}

/// Points in row `row` of a grid of `cols` columns.
pub open spec fn row_len(cols: int, row: int) -> int {
    cols - row + 1
}

/// Points in the rows before `row`.
pub open spec fn row_start(cols: int, row: int) -> int {
    row * (2 * cols + 3 - row) / 2
}

/// Place of the point (`row`, `col`) among the points of its face.
pub open spec fn grid_index(cols: int, row: int, col: int) -> int {
    row_start(cols, row) + col
}

/// Points of a whole grid of `cols` columns.
pub open spec fn face_vertex_count(cols: int) -> int {
    (cols + 1) * (cols + 2) / 2
}

/// Triangles in the strip between row `row` and the next.
pub open spec fn strip_len(cols: int, row: int) -> int {
    2 * (cols - row) - 1
}

/// Triangles in the strips before row `row`.
pub open spec fn strip_start(cols: int, row: int) -> int {
    row * (2 * cols - row)
}

/// Triangles of a whole grid of `cols` columns.
pub open spec fn face_triangle_count(cols: int) -> int {
    cols * cols
}

/// The vertex at (`row`, `col`) of the grid over `face`.
pub open spec fn grid_vertex<A>(face: Triangle, cols: int, row: int, col: int, attribute: A) -> Vertex<A> {
    Vertex {
        position: GridPoint {
            a: face.a,
            b: face.b,
            c: face.c,
            row: row as usize,
            col: col as usize,
            cols: cols as usize,
        },
        attribute,
    }
}

/// The vertices of one row, from the `a` side to the `b` side.
pub open spec fn row_vertices<A>(face: Triangle, cols: int, row: int, attribute: A) -> Seq<Vertex<A>> {
    Seq::new(row_len(cols, row) as nat, |col: int| grid_vertex(face, cols, row, col, attribute))
}

/// The vertices of the first `rows` rows of the grid over `face`, row by row.
pub open spec fn face_vertices<A>(face: Triangle, cols: int, rows: int, attribute: A) -> Seq<Vertex<A>>
    decreases rows,
{
    if rows <= 0 {
        Seq::empty()
    } else {
        face_vertices(face, cols, rows - 1, attribute) + row_vertices(face, cols, rows - 1, attribute)
    }
}

/// The vertices of a solid: for each face in turn, all rows of its own grid.
/// Faces share no vertex, even where their grids touch.
pub open spec fn solid_vertices<A>(faces: Seq<Triangle>, cols: int, attribute: A) -> Seq<Vertex<A>>
    decreases faces.len(),
{
    if faces.len() == 0 {
        Seq::empty()
    } else {
        solid_vertices(faces.drop_last(), cols, attribute) + face_vertices(
            faces.last(),
            cols,
            cols + 1,
            attribute,
        )
    }
}

/// Triangle `j` of the strip above row `row`, for a face whose first vertex
/// has index `base`. Even `j` give the triangles that stand on row `row`,
/// odd `j` those that hang from row `row + 1`.
pub open spec fn strip_triangle(base: int, cols: int, row: int, j: int) -> Triangle {
    let k = j / 2;
    if j % 2 == 0 {
        Triangle {
            a: (base + grid_index(cols, row, k + 1)) as usize,
            b: (base + grid_index(cols, row + 1, k)) as usize,
            c: (base + grid_index(cols, row, k)) as usize,
        }
    } else {
        Triangle {
            a: (base + grid_index(cols, row, k + 1)) as usize,
            b: (base + grid_index(cols, row + 1, k + 1)) as usize,
            c: (base + grid_index(cols, row + 1, k)) as usize,
        }
    }
}

/// The triangles of one strip, from the `a` side to the `b` side.
pub open spec fn strip_triangles(base: int, cols: int, row: int) -> Seq<Triangle> {
    Seq::new(strip_len(cols, row) as nat, |j: int| strip_triangle(base, cols, row, j))
}

/// The triangles of the first `rows` strips of a face, strip by strip.
pub open spec fn face_triangles(base: int, cols: int, rows: int) -> Seq<Triangle>
    decreases rows,
{
    if rows <= 0 {
        Seq::empty()
    } else {
        face_triangles(base, cols, rows - 1) + strip_triangles(base, cols, rows - 1)
    }
}

/// The triangles of a solid of `faces` faces: for each face in turn, all
/// strips of its grid, indexing into that face's own vertices.
pub open spec fn solid_triangles(faces: int, cols: int) -> Seq<Triangle>
    decreases faces,
{
    if faces <= 0 {
        Seq::empty()
    } else {
        solid_triangles(faces - 1, cols) + face_triangles(
            (faces - 1) * face_vertex_count(cols),
            cols,
            cols,
        )
    }
}

/// Each row starts where the row before it ends.
pub proof fn lemma_row_start_step(cols: int, row: int)
    ensures
        row_start(cols, row + 1) == row_start(cols, row) + row_len(cols, row),
{
    assert((row + 1) * (2 * cols + 3 - (row + 1)) == row * (2 * cols + 3 - row) + 2 * (cols - row
        + 1)) by (nonlinear_arith);
}

/// The rows of a grid lie one after another inside the face's vertex range.
pub proof fn lemma_row_start_bounds(cols: int, row: int)
    requires
        0 <= row <= cols + 1,
    ensures
        0 <= row_start(cols, row) <= face_vertex_count(cols),
        row_start(cols, 0) == 0,
        row_start(cols, cols + 1) == face_vertex_count(cols),
{
    assert(0 <= row * (2 * cols + 3 - row) <= (cols + 1) * (cols + 2)) by (nonlinear_arith)
        requires
            0 <= row <= cols + 1,
    ;
    assert((cols + 1) * (2 * cols + 3 - (cols + 1)) == (cols + 1) * (cols + 2)) by (nonlinear_arith);
    assert(0 * (2 * cols + 3 - 0) == 0) by (nonlinear_arith);
}

/// Every point of a grid has its own place among the face's vertices.
pub proof fn lemma_grid_index_bounds(cols: int, row: int, col: int)
    requires
        0 <= row <= cols,
        0 <= col <= cols - row,
    ensures
        0 <= grid_index(cols, row, col) < face_vertex_count(cols),
        row_start(cols, row) <= grid_index(cols, row, col) < row_start(cols, row + 1),
{
    lemma_row_start_step(cols, row);
    lemma_row_start_bounds(cols, row);
    lemma_row_start_bounds(cols, row + 1);
}

/// Each strip starts where the strip before it ends.
pub proof fn lemma_strip_start_step(cols: int, row: int)
    ensures
        strip_start(cols, row + 1) == strip_start(cols, row) + strip_len(cols, row),
        strip_start(cols, 0) == 0,
        strip_start(cols, cols) == face_triangle_count(cols),
{
    assert((row + 1) * (2 * cols - (row + 1)) == row * (2 * cols - row) + (2 * (cols - row) - 1))
        by (nonlinear_arith);
    assert(0 * (2 * cols - 0) == 0) by (nonlinear_arith);
    assert(cols * (2 * cols - cols) == cols * cols) by (nonlinear_arith);
}

/// The first `rows` rows hold as many vertices as `row_start` says.
pub proof fn lemma_face_vertices_len<A>(face: Triangle, cols: int, rows: int, attribute: A)
    requires
        0 <= rows <= cols + 1,
    ensures
        face_vertices(face, cols, rows, attribute).len() == row_start(cols, rows),
    decreases rows,
{
    if rows == 0 {
        lemma_row_start_bounds(cols, 0);
    } else {
        lemma_face_vertices_len(face, cols, rows - 1, attribute);
        lemma_row_start_step(cols, rows - 1);
    }
}

/// A solid has `face_vertex_count` vertices for each face.
pub proof fn lemma_solid_vertices_len<A>(faces: Seq<Triangle>, cols: int, attribute: A)
    requires
        0 <= cols,
    ensures
        solid_vertices(faces, cols, attribute).len() == faces.len() * face_vertex_count(cols),
    decreases faces.len(),
{
    if faces.len() == 0 {
        assert(0 * face_vertex_count(cols) == 0);
    } else {
        lemma_solid_vertices_len(faces.drop_last(), cols, attribute);
        lemma_face_vertices_len(faces.last(), cols, cols + 1, attribute);
        lemma_row_start_bounds(cols, cols + 1);
        let n = faces.len() as int;
        let g = face_vertex_count(cols);
        assert((n - 1) * g + g == n * g) by (nonlinear_arith);
    }
}

/// The first `rows` strips hold as many triangles as `strip_start` says.
pub proof fn lemma_face_triangles_len(base: int, cols: int, rows: int)
    requires
        0 <= rows <= cols,
    ensures
        face_triangles(base, cols, rows).len() == strip_start(cols, rows),
    decreases rows,
{
    if rows == 0 {
        lemma_strip_start_step(cols, 0);
    } else {
        lemma_face_triangles_len(base, cols, rows - 1);
        lemma_strip_start_step(cols, rows - 1);
    }
}

/// A solid has `cols * cols` triangles for each face.
pub proof fn lemma_solid_triangles_len(faces: int, cols: int)
    requires
        0 <= faces,
        0 <= cols,
    ensures
        solid_triangles(faces, cols).len() == faces * face_triangle_count(cols),
    decreases faces,
{
    if faces == 0 {
        assert(0 * face_triangle_count(cols) == 0);
    } else {
        lemma_solid_triangles_len(faces - 1, cols);
        lemma_face_triangles_len((faces - 1) * face_vertex_count(cols), cols, cols);
        lemma_strip_start_step(cols, 0);
        let t = face_triangle_count(cols);
        assert((faces - 1) * t + t == faces * t) by (nonlinear_arith);
    }
}

/// The corners of a strip triangle are vertices of the triangle's own face.
pub proof fn lemma_strip_triangle_within(base: int, cols: int, row: int, j: int)
    requires
        0 <= base,
        base + face_vertex_count(cols) <= usize::MAX,
        0 <= row < cols,
        0 <= j < strip_len(cols, row),
    ensures
        strip_triangle(base, cols, row, j).within(base + face_vertex_count(cols)),
        base <= strip_triangle(base, cols, row, j).a,
        base <= strip_triangle(base, cols, row, j).b,
        base <= strip_triangle(base, cols, row, j).c,
{
    let k = j / 2;
    lemma_grid_index_bounds(cols, row, k);
    lemma_grid_index_bounds(cols, row, k + 1);
    lemma_grid_index_bounds(cols, row + 1, k);
    if j % 2 == 1 {
        lemma_grid_index_bounds(cols, row + 1, k + 1);
    }
}

/// Triangle `t` of a face is triangle `t - strip_start` of the strip that
/// `t` falls into.
pub proof fn lemma_face_triangle_at(base: int, cols: int, rows: int, row: int, j: int)
    requires
        0 <= row < rows <= cols,
        0 <= j < strip_len(cols, row),
    ensures
        strip_start(cols, row) + j < face_triangles(base, cols, rows).len(),
        face_triangles(base, cols, rows)[strip_start(cols, row) + j] == strip_triangle(
            base,
            cols,
            row,
            j,
        ),
    decreases rows,
{
    lemma_face_triangles_len(base, cols, rows - 1);
    lemma_face_triangles_len(base, cols, rows);
    lemma_strip_start_step(cols, rows - 1);
    if row < rows - 1 {
        lemma_face_triangle_at(base, cols, rows - 1, row, j);
    }
}

/// Every triangle of a face joins vertices of that face.
pub proof fn lemma_face_triangles_within(base: int, cols: int, rows: int, t: int)
    requires
        0 <= base,
        base + face_vertex_count(cols) <= usize::MAX,
        0 <= rows <= cols,
        0 <= t < face_triangles(base, cols, rows).len(),
    ensures
        face_triangles(base, cols, rows)[t].within(base + face_vertex_count(cols)),
        base <= face_triangles(base, cols, rows)[t].a,
        base <= face_triangles(base, cols, rows)[t].b,
        base <= face_triangles(base, cols, rows)[t].c,
    decreases rows,
{
    if rows > 0 {
        lemma_face_triangles_len(base, cols, rows - 1);
        let before = face_triangles(base, cols, rows - 1);
        if t < before.len() {
            lemma_face_triangles_within(base, cols, rows - 1, t);
        } else {
            lemma_strip_triangle_within(base, cols, rows - 1, t - before.len());
        }
    }
}

/// Every triangle of a solid joins vertices of the solid: those of the face
/// the triangle was cut from.
pub proof fn lemma_solid_triangles_within(faces: int, cols: int, t: int)
    requires
        0 <= faces,
        1 <= cols,
        faces * face_vertex_count(cols) <= usize::MAX,
        0 <= t < solid_triangles(faces, cols).len(),
    ensures
        solid_triangles(faces, cols)[t].within(faces * face_vertex_count(cols)),
    decreases faces,
{
    let g = face_vertex_count(cols);
    lemma_row_start_bounds(cols, 0);
    assert(0 <= g);
    assert((faces - 1) * g + g == faces * g) by (nonlinear_arith);
    assert(0 <= (faces - 1) * g) by (nonlinear_arith)
        requires
            1 <= faces,
            0 <= g,
    ;
    lemma_solid_triangles_len(faces - 1, cols);
    let before = solid_triangles(faces - 1, cols);
    if t < before.len() {
        lemma_solid_triangles_within(faces - 1, cols, t);
    } else {
        lemma_face_triangles_within((faces - 1) * g, cols, cols, t - before.len());
    }
}

/// The vertex at (`row`, `col`) of a face stands at `grid_index` among the
/// face's vertices.
pub proof fn lemma_face_vertex_at<A>(
    face: Triangle,
    cols: int,
    rows: int,
    row: int,
    col: int,
    attribute: A,
)
    requires
        0 <= row < rows <= cols + 1,
        0 <= col <= cols - row,
    ensures
        grid_index(cols, row, col) < face_vertices(face, cols, rows, attribute).len(),
        face_vertices(face, cols, rows, attribute)[grid_index(cols, row, col)] == grid_vertex(
            face,
            cols,
            row,
            col,
            attribute,
        ),
    decreases rows,
{
    lemma_face_vertices_len(face, cols, rows - 1, attribute);
    lemma_face_vertices_len(face, cols, rows, attribute);
    lemma_row_start_step(cols, rows - 1);
    if row < rows - 1 {
        lemma_face_vertex_at(face, cols, rows - 1, row, col, attribute);
    }
}

/// The vertex at (`row`, `col`) of face `f` stands at `grid_index` among the
/// vertices of that face, which follow those of the faces before it.
pub proof fn lemma_solid_vertex_at<A>(
    faces: Seq<Triangle>,
    cols: int,
    f: int,
    row: int,
    col: int,
    attribute: A,
)
    requires
        0 <= f < faces.len(),
        0 <= row <= cols,
        0 <= col <= cols - row,
    ensures
        0 <= f * face_vertex_count(cols) + grid_index(cols, row, col) < solid_vertices(
            faces,
            cols,
            attribute,
        ).len(),
        solid_vertices(faces, cols, attribute)[f * face_vertex_count(cols) + grid_index(
            cols,
            row,
            col,
        )] == grid_vertex(faces[f], cols, row, col, attribute),
    decreases faces.len(),
{
    let g = face_vertex_count(cols);
    let n = faces.len() as int;
    lemma_solid_vertices_len(faces, cols, attribute);
    lemma_solid_vertices_len(faces.drop_last(), cols, attribute);
    lemma_face_vertices_len(faces.last(), cols, cols + 1, attribute);
    lemma_row_start_bounds(cols, cols + 1);
    lemma_grid_index_bounds(cols, row, col);
    assert((n - 1) * g + g == n * g) by (nonlinear_arith);
    assert(0 <= f * g) by (nonlinear_arith)
        requires
            0 <= f,
            0 <= g,
    ;
    if f < n - 1 {
        lemma_solid_vertex_at(faces.drop_last(), cols, f, row, col, attribute);
        assert((f + 1) * g <= (n - 1) * g) by (nonlinear_arith)
            requires
                f + 1 <= n - 1,
                0 <= g,
        ;
        assert((f + 1) * g == f * g + g) by (nonlinear_arith);
    } else {
        lemma_face_vertex_at(faces.last(), cols, cols + 1, row, col, attribute);
    }
}

/// Triangle `j` of strip `row` of face `f` stands at `strip_start + j` among
/// the triangles of that face, which follow those of the faces before it.
pub proof fn lemma_solid_triangle_at(faces: int, cols: int, f: int, row: int, j: int)
    requires
        0 <= f < faces,
        0 <= row < cols,
        0 <= j < strip_len(cols, row),
    ensures
        0 <= f * face_triangle_count(cols) + strip_start(cols, row) + j < solid_triangles(
            faces,
            cols,
        ).len(),
        solid_triangles(faces, cols)[f * face_triangle_count(cols) + strip_start(cols, row) + j]
            == strip_triangle(f * face_vertex_count(cols), cols, row, j),
    decreases faces,
{
    let c = face_triangle_count(cols);
    lemma_solid_triangles_len(faces, cols);
    lemma_solid_triangles_len(faces - 1, cols);
    lemma_face_triangles_len((faces - 1) * face_vertex_count(cols), cols, cols);
    lemma_strip_start_step(cols, 0);
    lemma_face_triangle_at((faces - 1) * face_vertex_count(cols), cols, cols, row, j);
    assert(0 <= strip_start(cols, row)) by (nonlinear_arith)
        requires
            0 <= row < cols,
    ;
    assert(0 <= c) by (nonlinear_arith)
        requires
            c == cols * cols,
    ;
    assert((faces - 1) * c + c == faces * c) by (nonlinear_arith);
    assert(0 <= f * c) by (nonlinear_arith)
        requires
            0 <= f,
            0 <= c,
    ;
    if f < faces - 1 {
        lemma_solid_triangle_at(faces - 1, cols, f, row, j);
    }
}

/// Every vertex of a solid is a point on the grid of one of the faces and
/// carries the solid's attribute.
pub proof fn lemma_solid_vertex_is_grid_point<A>(
    faces: Seq<Triangle>,
    cols: int,
    attribute: A,
    v: int,
)
    requires
        1 <= cols <= usize::MAX,
        0 <= v < solid_vertices(faces, cols, attribute).len(),
    ensures
        solid_vertices(faces, cols, attribute)[v].attribute == attribute,
        solid_vertices(faces, cols, attribute)[v].position.wf(),
        solid_vertices(faces, cols, attribute)[v].position.cols == cols,
        exists|f: int|
            0 <= f < faces.len() && ({
                let p = solid_vertices(faces, cols, attribute)[v].position;
                p.a == (#[trigger] faces[f]).a && p.b == faces[f].b && p.c == faces[f].c
            }),
    decreases faces.len(),
{
    if faces.len() > 0 {
        let before = solid_vertices(faces.drop_last(), cols, attribute);
        if v < before.len() {
            lemma_solid_vertex_is_grid_point(faces.drop_last(), cols, attribute, v);
            let f = choose|f: int|
                0 <= f < faces.drop_last().len() && ({
                    let p = before[v].position;
                    p.a == (#[trigger] faces.drop_last()[f]).a && p.b == faces.drop_last()[f].b
                        && p.c == faces.drop_last()[f].c
                });
            assert(faces[f] == faces.drop_last()[f]);
        } else {
            lemma_face_vertex_is_grid_point(
                faces.last(),
                cols,
                cols + 1,
                attribute,
                v - before.len(),
            );
            assert(faces[faces.len() - 1] == faces.last());
        }
    }
}

/// Every vertex of a face is a point on the face's grid and carries the
/// attribute.
pub proof fn lemma_face_vertex_is_grid_point<A>(
    face: Triangle,
    cols: int,
    rows: int,
    attribute: A,
    v: int,
)
    requires
        1 <= cols <= usize::MAX,
        0 <= rows <= cols + 1,
        0 <= v < face_vertices(face, cols, rows, attribute).len(),
    ensures
        face_vertices(face, cols, rows, attribute)[v].attribute == attribute,
        face_vertices(face, cols, rows, attribute)[v].position.wf(),
        face_vertices(face, cols, rows, attribute)[v].position.cols == cols,
        face_vertices(face, cols, rows, attribute)[v].position.a == face.a,
        face_vertices(face, cols, rows, attribute)[v].position.b == face.b,
        face_vertices(face, cols, rows, attribute)[v].position.c == face.c,
    decreases rows,
{
    if rows > 0 {
        let before = face_vertices(face, cols, rows - 1, attribute);
        if v < before.len() {
            lemma_face_vertex_is_grid_point(face, cols, rows - 1, attribute, v);
        }
    }
}

/// The grid point that stands at place `v` among the vertices of a face,
/// looked for from row `row` on.
proof fn lemma_grid_point_from(cols: int, v: int, row: int) -> (point: (int, int))
    requires
        0 <= row <= cols,
        row_start(cols, row) <= v < face_vertex_count(cols),
    ensures
        0 <= point.0 <= cols,
        0 <= point.1 <= cols - point.0,
        grid_index(cols, point.0, point.1) == v,
    decreases cols - row,
{
    lemma_row_start_step(cols, row);
    lemma_row_start_bounds(cols, cols + 1);
    if v < row_start(cols, row + 1) {
        (row, v - row_start(cols, row))
    } else {
        lemma_grid_point_from(cols, v, row + 1)
    }
}

/// Every place among the vertices of a face is the place of a grid point.
pub proof fn lemma_grid_point_at(cols: int, v: int) -> (point: (int, int))
    requires
        0 <= cols,
        0 <= v < face_vertex_count(cols),
    ensures
        0 <= point.0 <= cols,
        0 <= point.1 <= cols - point.0,
        grid_index(cols, point.0, point.1) == v,
{
    lemma_row_start_bounds(cols, 0);
    lemma_grid_point_from(cols, v, 0)
}

/// Every grid point is a corner of a triangle of its grid: the result names
/// the strip and the place in the strip of one such triangle.
pub proof fn lemma_grid_point_touched(base: int, cols: int, row: int, col: int) -> (at: (int, int))
    requires
        0 <= base,
        base + face_vertex_count(cols) <= usize::MAX,
        1 <= cols,
        0 <= row <= cols,
        0 <= col <= cols - row,
    ensures
        0 <= at.0 < cols,
        0 <= at.1 < strip_len(cols, at.0),
        ({
            let t = strip_triangle(base, cols, at.0, at.1);
            let v = base + grid_index(cols, row, col);
            t.a == v || t.b == v || t.c == v
        }),
{
    lemma_grid_index_bounds(cols, row, col);
    if row == cols {
        (cols - 1, 0)
    } else if col < cols - row {
        (row, 2 * col)
    } else {
        (row, 2 * (col - 1))
    }
}

} // verus!
