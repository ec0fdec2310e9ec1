use vstd::prelude::*;
use crate::error::MeshError;
use crate::grid::{
    face_triangles, face_vertex_count, face_vertices, grid_cols, grid_vertex,
    lemma_face_vertices_len, lemma_grid_cols, lemma_grid_index_bounds, lemma_row_start_bounds,
    lemma_row_start_step, lemma_solid_vertices_len, row_start, row_vertices, solid_triangles,
    solid_vertices, strip_len, strip_triangle, strip_triangles, triangle_count, vertex_count,
    MAX_COLS, MAX_DETAIL,
};
use crate::laws::{lemma_counts, lemma_counts_bounded, lemma_indices_in_range};
use crate::icosahedron::{base_faces, faces};
use crate::mesh::{attributes_of, flat, flat_cells, Mesh};
use crate::triangle::{all_within, Triangle};
use crate::vertex::{GridPoint, Vertex};

verus! {

/// A solid under construction or finished: a vertex list, and triangles that
/// index into it. Every vertex carries the one attribute the solid was made
/// with.
pub struct Polyhedron<A> {
    vertices: Vec<Vertex<A>>,
    triangles: Vec<Triangle>,
    detail: u32,
    shape_attribute: A,
}

impl<A: Copy> Polyhedron<A> {
    /// The vertex list, in index order.
    pub closed spec fn spec_vertices(&self) -> Seq<Vertex<A>> {
        self.vertices@
    }

    /// The triangle list, in creation order.
    pub closed spec fn spec_triangles(&self) -> Seq<Triangle> {
        self.triangles@
    }

    /// The detail level the solid was subdivided at.
    pub closed spec fn spec_detail(&self) -> u32 {
        self.detail
    }

    /// The attribute every vertex carries.
    pub closed spec fn spec_attribute(&self) -> A {
        self.shape_attribute
    }

    /// The solid is exactly the subdivided icosahedron of its detail level
    /// and attribute.
    pub open spec fn wf(&self) -> bool {
        &&& self.spec_detail() <= MAX_DETAIL
        &&& self.spec_vertices() == solid_vertices(
            base_faces(),
            grid_cols(self.spec_detail() as nat),
            self.spec_attribute(),
        )
        &&& self.spec_triangles() == solid_triangles(
            base_faces().len() as int,
            grid_cols(self.spec_detail() as nat),
        )
    }

    /// The icosahedron subdivided `detail` times: each face is replaced by
    /// its grid of two-to-the-`detail` columns, and every vertex carries
    /// `attribute`. A `detail` above `MAX_DETAIL` is refused.
    pub fn regular_isocahedron(detail: u32, attribute: A) -> (r: Result<Polyhedron<A>, MeshError>)
        ensures
            r is Ok <==> detail <= MAX_DETAIL,
            r matches Ok(p) ==> {
                &&& p.wf()
                &&& p.spec_detail() == detail
                &&& p.spec_attribute() == attribute
                &&& p.spec_vertices().len() == vertex_count(detail as nat)
                &&& p.spec_triangles().len() == triangle_count(detail as nat)
                &&& all_within(p.spec_triangles(), p.spec_vertices().len() as int)
            },
            r matches Err(e) ==> e == MeshError::InvalidDetail,
    {
        if detail > MAX_DETAIL {
            return Err(MeshError::InvalidDetail);
        }
        let mut solid = Polyhedron {
            vertices: Vec::new(),
            triangles: Vec::new(),
            detail,
            shape_attribute: attribute,
        };
        let base = faces();
        solid.subdivide(&base, detail);
        assert(base@.take(base@.len() as int) =~= base@);
        proof {
            lemma_counts(solid);
            lemma_indices_in_range(solid);
        }
        Ok(solid)
    }

    /// The vertex list.
    pub fn vertices(&self) -> (r: &Vec<Vertex<A>>)
        ensures
            r@ == self.spec_vertices(),
    {
        &self.vertices
    }

    /// The triangle list.
    pub fn triangles(&self) -> (r: &Vec<Triangle>)
        ensures
            r@ == self.spec_triangles(),
    {
        &self.triangles
    }

    /// The detail level.
    pub fn detail(&self) -> (r: u32)
        ensures
            r == self.spec_detail(),
    {
        self.detail
    }

    /// The attribute of every vertex.
    pub fn attribute(&self) -> (r: A)
        ensures
            r == self.spec_attribute(),
    {
        self.shape_attribute
    }

    /// Lays the solid out as a mesh, given one position and one normal per
    /// vertex. Coordinate lists of another length are refused.
    pub fn generate_render_shape<S: Copy>(
        &self,
        positions: &Vec<[S; 3]>,
        normals: &Vec<[S; 3]>,
    ) -> (r: Result<Mesh<S, A>, MeshError>)
        requires
            self.wf(),
        ensures
            r is Ok <==> positions@.len() == self.spec_vertices().len() && normals@.len()
                == self.spec_vertices().len(),
            r matches Ok(m) ==> {
                &&& m.wf()
                &&& m.vertices@ == flat(positions@)
                &&& m.normals@ == flat(normals@)
                &&& m.indices@ == flat_cells(self.spec_triangles())
                &&& m.attributes@ == attributes_of(self.spec_vertices())
                &&& m.index_count == 3 * self.spec_triangles().len()
            },
            r matches Err(e) ==> e == MeshError::LengthMismatch,
    {
        proof {
            lemma_counts(*self);
            lemma_counts_bounded(self.detail as nat);
            lemma_indices_in_range(*self);
        }
        Mesh::assemble(&self.vertices, &self.triangles, positions, normals)
    }

    /// Appends `vertex` and returns its index.
    fn add_vertex(&mut self, vertex: Vertex<A>) -> (index: usize)
        ensures
            final(self).vertices@ == old(self).vertices@.push(vertex),
            index == old(self).vertices@.len(),
            final(self).triangles == old(self).triangles,
            final(self).detail == old(self).detail,
            final(self).shape_attribute == old(self).shape_attribute,
    {
        self.vertices.push(vertex);
        self.vertices.len() - 1
    }

    /// Two to the power `detail`.
    fn columns(detail: u32) -> (cols: usize)
        requires
            detail <= MAX_DETAIL,
        ensures
            cols == grid_cols(detail as nat),
            1 <= cols <= MAX_COLS,
    {
        let mut cols: usize = 1;
        let mut level: u32 = 0;
        proof {
            lemma_grid_cols(0);
        }
        while level < detail
            invariant
                level <= detail <= MAX_DETAIL,
                cols == grid_cols(level as nat),
                1 <= cols <= MAX_COLS,
            decreases detail - level,
        {
            proof {
                lemma_grid_cols(level as nat);
                lemma_grid_cols((level + 1) as nat);
            }
            cols = cols * 2;
            level = level + 1;
        }
        cols
    }

    /// Subdivides every face of `base` in turn.
    fn subdivide(&mut self, base: &Vec<Triangle>, detail: u32)
        requires
            detail <= MAX_DETAIL,
            old(self).vertices@.len() == 0,
            old(self).triangles@.len() == 0,
        ensures
            final(self).vertices@ == solid_vertices(
                base@,
                grid_cols(detail as nat),
                old(self).shape_attribute,
            ),
            final(self).triangles@ == solid_triangles(
                base@.len() as int,
                grid_cols(detail as nat),
            ),
            final(self).detail == old(self).detail,
            final(self).shape_attribute == old(self).shape_attribute,
    {
        let cols = Self::columns(detail);
        let ghost attribute = self.shape_attribute;
        let ghost level = self.detail;
        let mut f: usize = 0;
        assert(self.vertices@ =~= solid_vertices(base@.take(0), cols as int, attribute));
        assert(self.triangles@ =~= solid_triangles(0, cols as int));
        while f < base.len()
            invariant
                f <= base.len(),
                1 <= cols <= MAX_COLS,
                self.shape_attribute == attribute,
                self.detail == level,
                self.vertices@ == solid_vertices(base@.take(f as int), cols as int, attribute),
                self.triangles@ == solid_triangles(f as int, cols as int),
            decreases base.len() - f,
        {
            proof {
                lemma_solid_vertices_len(base@.take(f as int), cols as int, attribute);
                assert(base@.take(f + 1).drop_last() =~= base@.take(f as int));
                assert(base@.take(f + 1).last() == base@[f as int]);
            }
            self.subdivide_triangle(base[f], cols);
            f = f + 1;
        }
        assert(base@.take(base@.len() as int) =~= base@);
    }

    /// Lays the grid of `cols` columns over `face`: appends its vertices row
    /// by row, then its triangles strip by strip.
    fn subdivide_triangle(&mut self, face: Triangle, cols: usize)
        requires
            1 <= cols <= MAX_COLS,
        ensures
            final(self).vertices@ == old(self).vertices@ + face_vertices(
                face,
                cols as int,
                cols + 1,
                old(self).shape_attribute,
            ),
            final(self).triangles@ == old(self).triangles@ + face_triangles(
                old(self).vertices@.len() as int,
                cols as int,
                cols as int,
            ),
            final(self).detail == old(self).detail,
            final(self).shape_attribute == old(self).shape_attribute,
    {
        let ghost before = self.vertices@;
        let ghost attribute = self.shape_attribute;
        let ghost level = self.detail;
        let ghost triangles_before = self.triangles@;
        let base: usize = self.vertices.len();
        let mut i: usize = 0;
        assert(self.vertices@ =~= before + face_vertices(face, cols as int, 0, attribute));
        while i <= cols
            invariant
                1 <= cols <= MAX_COLS,
                i <= cols + 1,
                self.shape_attribute == attribute,
                self.detail == level,
                self.triangles@ == triangles_before,
                self.vertices@ == before + face_vertices(face, cols as int, i as int, attribute),
            decreases cols + 1 - i,
        {
            let mut j: usize = 0;
            let ghost row = row_vertices(face, cols as int, i as int, attribute);
            let ghost rows_before = before + face_vertices(face, cols as int, i as int, attribute);
            assert(self.vertices@ =~= rows_before + row.take(0));
            while j <= cols - i
                invariant
                    1 <= cols <= MAX_COLS,
                    i <= cols,
                    j <= cols - i + 1,
                    self.shape_attribute == attribute,
                    self.detail == level,
                    self.triangles@ == triangles_before,
                    row == row_vertices(face, cols as int, i as int, attribute),
                    self.vertices@ == rows_before + row.take(j as int),
                decreases cols - i + 1 - j,
            {
                let attribute_here = self.shape_attribute;
                let vertex = Vertex {
                    position: GridPoint { a: face.a, b: face.b, c: face.c, row: i, col: j, cols },
                    attribute: attribute_here,
                };
                assert(vertex == grid_vertex(face, cols as int, i as int, j as int, attribute));
                assert(row.take(j + 1) =~= row.take(j as int).push(row[j as int]));
                self.add_vertex(vertex);
                assert(self.vertices@ =~= rows_before + row.take(j + 1));
                j = j + 1;
            }
            assert(row.take(j as int) =~= row);
            assert(self.vertices@ =~= before + face_vertices(face, cols as int, i + 1, attribute));
            i = i + 1;
        }
        proof {
            lemma_face_vertices_len(face, cols as int, cols + 1, attribute);
            lemma_row_start_bounds(cols as int, cols + 1);
        }
        let ghost count = face_vertex_count(cols as int);
        assert(self.vertices.len() == base + count);

        let mut i: usize = 0;
        let mut row_first: usize = base;
        assert(self.triangles@ =~= triangles_before + face_triangles(base as int, cols as int, 0));
        proof {
            lemma_row_start_bounds(cols as int, 0);
        }
        while i < cols
            invariant
                1 <= cols <= MAX_COLS,
                i <= cols,
                self.shape_attribute == attribute,
                self.detail == level,
                count == face_vertex_count(cols as int),
                base + count <= usize::MAX,
                row_first == base + row_start(cols as int, i as int),
                self.vertices@ == before + face_vertices(face, cols as int, cols + 1, attribute),
                self.triangles@ == triangles_before + face_triangles(
                    base as int,
                    cols as int,
                    i as int,
                ),
            decreases cols - i,
        {
            proof {
                lemma_row_start_step(cols as int, i as int);
                lemma_row_start_bounds(cols as int, i + 1);
                lemma_row_start_bounds(cols as int, i as int);
            }
            let next_first: usize = row_first + (cols - i + 1);
            let strip_end: usize = 2 * (cols - i) - 1;
            let ghost strip = strip_triangles(base as int, cols as int, i as int);
            let ghost strips_before = triangles_before + face_triangles(
                base as int,
                cols as int,
                i as int,
            );
            let mut j: usize = 0;
            assert(self.triangles@ =~= strips_before + strip.take(0));
            while j < strip_end
                invariant
                    1 <= cols <= MAX_COLS,
                    i < cols,
                    j <= strip_end,
                    strip_end == strip_len(cols as int, i as int),
                    self.shape_attribute == attribute,
                    self.detail == level,
                    count == face_vertex_count(cols as int),
                    base + count <= usize::MAX,
                    row_first == base + row_start(cols as int, i as int),
                    next_first == base + row_start(cols as int, i + 1),
                    strip == strip_triangles(base as int, cols as int, i as int),
                    self.vertices@ == before + face_vertices(
                        face,
                        cols as int,
                        cols + 1,
                        attribute,
                    ),
                    self.triangles@ == strips_before + strip.take(j as int),
                decreases strip_end - j,
            {
                let k: usize = j / 2;
                proof {
                    lemma_grid_index_bounds(cols as int, i as int, k as int);
                    lemma_grid_index_bounds(cols as int, i as int, k + 1);
                    lemma_grid_index_bounds(cols as int, i + 1, k as int);
                    if j % 2 == 1 {
                        lemma_grid_index_bounds(cols as int, i + 1, k + 1);
                    }
                }
                let triangle = if j % 2 == 0 {
                    Triangle::new(row_first + k + 1, next_first + k, row_first + k)
                } else {
                    Triangle::new(row_first + k + 1, next_first + k + 1, next_first + k)
                };
                assert(triangle == strip_triangle(base as int, cols as int, i as int, j as int));
                assert(strip.take(j + 1) =~= strip.take(j as int).push(strip[j as int]));
                self.triangles.push(triangle);
                assert(self.triangles@ =~= strips_before + strip.take(j + 1));
                j = j + 1;
            }
            assert(strip.take(j as int) =~= strip);
            assert(self.triangles@ =~= triangles_before + face_triangles(
                base as int,
                cols as int,
                i + 1,
            ));
            row_first = next_first;
            i = i + 1;
        }
    }
}

} // verus!
