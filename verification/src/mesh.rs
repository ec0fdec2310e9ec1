use vstd::prelude::*;
use crate::error::MeshError;
use crate::triangle::{all_within, Triangle};
use crate::vertex::Vertex;

verus! {

/// The three components of each entry of `items`, one entry after another.
pub open spec fn flat<S>(items: Seq<[S; 3]>) -> Seq<S> {
    Seq::new(3 * items.len(), |i: int| items[i / 3][i % 3])
}

/// Corner `c` of `triangle`: `a`, `b`, `c` for 0, 1, 2.
pub open spec fn corner(triangle: Triangle, c: int) -> usize {
    if c == 0 {
        triangle.a
    } else if c == 1 {
        triangle.b
    } else {
        triangle.c
    }
}

/// The three corners of each triangle, one triangle after another.
pub open spec fn flat_cells(triangles: Seq<Triangle>) -> Seq<u32> {
    Seq::new(3 * triangles.len(), |i: int| corner(triangles[i / 3], i % 3) as u32)
}

/// The attribute of each vertex, in vertex order.
pub open spec fn attributes_of<A>(vertices: Seq<Vertex<A>>) -> Seq<A> {
    Seq::new(vertices.len(), |v: int| vertices[v].attribute)
}

/// Lays a list of coordinate triples out as one flat list of components.
pub fn flatten_vertices<S: Copy>(items: &Vec<[S; 3]>) -> (r: Vec<S>)
    ensures
        r@ == flat(items@),
{
    let mut r: Vec<S> = Vec::new();
    let mut k: usize = 0;
    while k < items.len()
        invariant
            k <= items.len(),
            r@.len() == 3 * k,
            forall|i: int| 0 <= i < 3 * k ==> #[trigger] r@[i] == items@[i / 3][i % 3],
        decreases items.len() - k,
    {
        let item = items[k];
        r.push(item[0]);
        r.push(item[1]);
        r.push(item[2]);
        k = k + 1;
    }
    assert(r@ =~= flat(items@));
    r
}

/// Lays the corners of a triangle list out as one flat index list, every
/// index kept as it is.
pub fn flatten_cells(triangles: &Vec<Triangle>) -> (r: Vec<u32>)
    requires
        all_within(triangles@, u32::MAX + 1),
    ensures
        r@ == flat_cells(triangles@),
        forall|i: int| 0 <= i < r@.len() ==> #[trigger] r@[i] == corner(triangles@[i / 3], i % 3),
{
    let mut r: Vec<u32> = Vec::new();
    let mut k: usize = 0;
    while k < triangles.len()
        invariant
            k <= triangles.len(),
            all_within(triangles@, u32::MAX + 1),
            r@.len() == 3 * k,
            forall|i: int| 0 <= i < 3 * k ==> #[trigger] r@[i] == corner(triangles@[i / 3], i % 3),
        decreases triangles.len() - k,
    {
        let cell = triangles[k];
        assert(triangles@[k as int].within(u32::MAX + 1));
        r.push(cell.a as u32);
        r.push(cell.b as u32);
        r.push(cell.c as u32);
        k = k + 1;
    }
    assert(r@ =~= flat_cells(triangles@));
    r
}

/// Collects the attribute of each vertex.
pub fn flatten_attributes<A: Copy>(vertices: &Vec<Vertex<A>>) -> (r: Vec<A>)
    ensures
        r@ == attributes_of(vertices@),
{
    let mut r: Vec<A> = Vec::new();
    let mut k: usize = 0;
    while k < vertices.len()
        invariant
            k <= vertices.len(),
            r@.len() == k,
            forall|v: int| 0 <= v < k ==> #[trigger] r@[v] == vertices@[v].attribute,
        decreases vertices.len() - k,
    {
        r.push(vertices[k].attribute);
        k = k + 1;
    }
    assert(r@ =~= attributes_of(vertices@));
    r
}

/// A mesh in the layout a rendering backend takes: parallel flat buffers,
/// three position components and three normal components per vertex, one
/// attribute per vertex, and three indices per triangle.
pub struct Mesh<S, A> {
    pub vertices: Vec<S>,
    pub indices: Vec<u32>,
    pub normals: Vec<S>,
    pub attributes: Vec<A>,
    pub index_count: i32,
}

impl<S: Copy, A: Copy> Mesh<S, A> {
    /// Number of vertices the buffers describe.
    pub open spec fn vertex_count(&self) -> int {
        self.attributes@.len() as int
    }

    /// The buffers are parallel, and every index names a vertex.
    pub open spec fn wf(&self) -> bool {
        &&& self.vertices@.len() == 3 * self.vertex_count()
        &&& self.normals@.len() == 3 * self.vertex_count()
        &&& self.indices@.len() % 3 == 0
        &&& self.index_count == self.indices@.len()
        &&& forall|i: int| 0 <= i < self.indices@.len() ==> #[trigger] self.indices@[i] < self.vertex_count()
    }

    /// A mesh with no vertex and no triangle.
    pub fn empty() -> (m: Mesh<S, A>)
        ensures
            m.wf(),
            m.vertices@.len() == 0,
            m.indices@.len() == 0,
            m.normals@.len() == 0,
            m.attributes@.len() == 0,
            m.index_count == 0,
    {
        Mesh {
            vertices: Vec::new(),
            indices: Vec::new(),
            normals: Vec::new(),
            attributes: Vec::new(),
            index_count: 0,
        }
    }

    /// Lays out a vertex list, a triangle list and one position and one
    /// normal per vertex as a mesh. Nothing is computed; every value is
    /// copied to its place. Coordinate lists that do not have one entry per
    /// vertex are refused.
    pub fn assemble(
        vertices: &Vec<Vertex<A>>,
        triangles: &Vec<Triangle>,
        positions: &Vec<[S; 3]>,
        normals: &Vec<[S; 3]>,
    ) -> (r: Result<Mesh<S, A>, MeshError>)
        requires
            all_within(triangles@, vertices@.len() as int),
            vertices@.len() <= u32::MAX,
            3 * triangles@.len() <= i32::MAX,
        ensures
            r is Ok <==> positions@.len() == vertices@.len() && normals@.len() == vertices@.len(),
            r matches Ok(m) ==> {
                &&& m.wf()
                &&& m.vertices@ == flat(positions@)
                &&& m.normals@ == flat(normals@)
                &&& m.indices@ == flat_cells(triangles@)
                &&& m.attributes@ == attributes_of(vertices@)
                &&& m.index_count == 3 * triangles@.len()
            },
            r matches Err(e) ==> e == MeshError::LengthMismatch,
    {
        if positions.len() != vertices.len() || normals.len() != vertices.len() {
            return Err(MeshError::LengthMismatch);
        }
        assert forall|t: int| 0 <= t < triangles@.len() implies (#[trigger] triangles@[t]).within(
            u32::MAX + 1,
        ) by {
            assert(triangles@[t].within(vertices@.len() as int));
        }
        let indices = flatten_cells(triangles);
        assert forall|i: int| 0 <= i < indices@.len() implies #[trigger] indices@[i]
            < vertices@.len() by {
            assert(triangles@[i / 3].within(vertices@.len() as int));
        }
        let index_count: i32 = indices.len() as i32;
        Ok(
            Mesh {
                vertices: flatten_vertices(positions),
                indices,
                normals: flatten_vertices(normals),
                attributes: flatten_attributes(vertices),
                index_count,
            },
        )
    }
}

} // verus!
