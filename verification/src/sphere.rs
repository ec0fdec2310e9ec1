use vstd::prelude::*;
use crate::error::MeshError;
use crate::grid::{triangle_count, vertex_count, MAX_DETAIL};
use crate::icosahedron::BASE_VERTEX_COUNT;
use crate::laws::lemma_vertices_uniform;
use crate::mesh::{attributes_of, flat, flat_cells, Mesh};
use crate::polyhedron::Polyhedron;
use crate::normals::{gathered, incident_faces};
use crate::shading::{
    blend_of, blended_by, face_normals, face_normals_by, kernel_deterministic, kernel_total,
    place_vertices, placed_by, vertex_normals,
};
use crate::vertex::GridPoint;

verus! {

/// A geodesic sphere that is always complete: the subdivided solid, one
/// position and one normal per vertex, one normal per triangle, and the mesh
/// laid out from them. A change of detail replaces all of it at once.
pub struct Sphere<S, A> {
    solid: Polyhedron<A>,
    positions: Vec<[S; 3]>,
    face_normals: Vec<[S; 3]>,
    normals: Vec<[S; 3]>,
    mesh: Mesh<S, A>,
}

impl<S: Copy, A: Copy> Sphere<S, A> {
    /// The subdivided solid.
    pub closed spec fn spec_solid(&self) -> Polyhedron<A> {
        self.solid
    }

    /// The position of each vertex.
    pub closed spec fn spec_positions(&self) -> Seq<[S; 3]> {
        self.positions@
    }

    /// The normal of each triangle.
    pub closed spec fn spec_face_normals(&self) -> Seq<[S; 3]> {
        self.face_normals@
    }

    /// The normal of each vertex.
    pub closed spec fn spec_normals(&self) -> Seq<[S; 3]> {
        self.normals@
    }

    /// The mesh that is served.
    pub closed spec fn spec_mesh(&self) -> Mesh<S, A> {
        self.mesh
    }

    /// The solid is a subdivided icosahedron, there is one position and one
    /// normal per vertex, and the mesh is their layout.
    pub open spec fn wf(&self) -> bool {
        &&& self.spec_solid().wf()
        &&& self.spec_positions().len() == self.spec_solid().spec_vertices().len()
        &&& self.spec_normals().len() == self.spec_solid().spec_vertices().len()
        &&& self.spec_face_normals().len() == self.spec_solid().spec_triangles().len()
        &&& self.spec_mesh().wf()
        &&& self.spec_mesh().vertices@ == flat(self.spec_positions())
        &&& self.spec_mesh().normals@ == flat(self.spec_normals())
        &&& self.spec_mesh().indices@ == flat_cells(self.spec_solid().spec_triangles())
        &&& self.spec_mesh().attributes@ == attributes_of(self.spec_solid().spec_vertices())
        &&& self.spec_mesh().index_count == 3 * self.spec_solid().spec_triangles().len()
    }

    /// Every position is what `place` gave for the vertex's grid point,
    /// every face normal what `face_normal` gave for the positions of the
    /// triangle's corners, and every vertex normal what `blend` gave for the
    /// face normals of the triangles that meet at the vertex.
    pub open spec fn shaded_by<P, N, B>(&self, place: &P, face_normal: &N, blend: &B) -> bool where
        P: Fn(GridPoint) -> [S; 3],
        N: Fn([S; 3], [S; 3], [S; 3]) -> [S; 3],
        B: Fn(&Vec<[S; 3]>) -> [S; 3],
     {
        &&& placed_by(self.spec_positions(), self.spec_solid().spec_vertices(), place)
        &&& face_normals_by(
            self.spec_face_normals(),
            self.spec_solid().spec_triangles(),
            self.spec_positions(),
            face_normal,
        )
        &&& blended_by(
            self.spec_normals(),
            self.spec_solid().spec_triangles(),
            self.spec_face_normals(),
            blend,
        )
    }

    /// Builds the sphere of detail `detail` whose vertices all carry
    /// `material`: subdivides the icosahedron, evaluates positions and
    /// normals with the three operations given, and lays the mesh out. A
    /// `detail` above `MAX_DETAIL` is refused and nothing is built.
    pub fn new<P, N, B>(detail: u32, material: A, place: &P, face_normal: &N, blend: &B) -> (r:
        Result<Sphere<S, A>, MeshError>) where
        P: Fn(GridPoint) -> [S; 3],
        N: Fn([S; 3], [S; 3], [S; 3]) -> [S; 3],
        B: Fn(&Vec<[S; 3]>) -> [S; 3],

        requires
            kernel_total(place, face_normal, blend),
        ensures
            r is Ok <==> detail <= MAX_DETAIL,
            r matches Ok(s) ==> {
                &&& s.wf()
                &&& s.spec_solid().spec_detail() == detail
                &&& s.spec_solid().spec_attribute() == material
                &&& s.shaded_by(place, face_normal, blend)
                &&& s.spec_mesh().attributes@.len() == vertex_count(detail as nat)
                &&& s.spec_mesh().index_count == 3 * triangle_count(detail as nat)
            },
            r matches Err(e) ==> e == MeshError::InvalidDetail,
    {
        let solid = match Polyhedron::regular_isocahedron(detail, material) {
            Ok(solid) => solid,
            Err(e) => {
                return Err(e);
            },
        };
        proof {
            assert forall|v: int| 0 <= v < solid.spec_vertices().len() implies call_requires(
                place,
                ((#[trigger] solid.spec_vertices()[v]).position,),
            ) by {
                lemma_vertices_uniform(solid, v);
                assert(solid.spec_vertices()[v].position.on_solid(BASE_VERTEX_COUNT as int));
            }
        }
        let positions = place_vertices(solid.vertices(), place);
        let face_normals = face_normals(solid.triangles(), &positions, face_normal);
        let normals = vertex_normals(
            solid.triangles(),
            solid.vertices().len(),
            &face_normals,
            blend,
        );
        match solid.generate_render_shape(&positions, &normals) {
            Ok(mesh) => Ok(Sphere { solid, positions, face_normals, normals, mesh }),
            Err(e) => Err(e),
        }
    }

    /// Rebuilds the sphere at detail `detail` with the material it has. On
    /// success the whole sphere, mesh included, is the new one; a `detail`
    /// above `MAX_DETAIL` is refused and leaves the sphere as it was.
    pub fn generate_with_new_detail<P, N, B>(
        &mut self,
        detail: u32,
        place: &P,
        face_normal: &N,
        blend: &B,
    ) -> (r: Result<(), MeshError>) where
        P: Fn(GridPoint) -> [S; 3],
        N: Fn([S; 3], [S; 3], [S; 3]) -> [S; 3],
        B: Fn(&Vec<[S; 3]>) -> [S; 3],

        requires
            kernel_total(place, face_normal, blend),
        ensures
            r is Ok <==> detail <= MAX_DETAIL,
            r is Ok ==> {
                &&& final(self).wf()
                &&& final(self).spec_mesh().attributes@.len() == vertex_count(detail as nat)
                &&& final(self).spec_mesh().index_count == 3 * triangle_count(detail as nat)
                &&& final(self).spec_solid().spec_detail() == detail
                &&& final(self).spec_solid().spec_attribute() == old(
                    self,
                ).spec_solid().spec_attribute()
                &&& final(self).shaded_by(place, face_normal, blend)
            },
            r matches Err(e) ==> e == MeshError::InvalidDetail && *final(self) == *old(self),
    {
        match Sphere::new(detail, self.solid.attribute(), place, face_normal, blend) {
            Ok(sphere) => {
                *self = sphere;
                Ok(())
            },
            Err(e) => Err(e),
        }
    }

    /// The mesh that is served.
    pub fn mesh(&self) -> (r: &Mesh<S, A>)
        ensures
            *r == self.spec_mesh(),
    {
        &self.mesh
    }

    /// Gives the mesh away and drops the rest of the sphere.
    pub fn into_mesh(self) -> (r: Mesh<S, A>)
        ensures
            r == self.spec_mesh(),
    {
        self.mesh
    }

    /// The subdivided solid.
    pub fn solid(&self) -> (r: &Polyhedron<A>)
        ensures
            *r == self.spec_solid(),
    {
        &self.solid
    }

    /// The position of each vertex.
    pub fn positions(&self) -> (r: &Vec<[S; 3]>)
        ensures
            r@ == self.spec_positions(),
    {
        &self.positions
    }

    /// The normal of each vertex.
    pub fn normals(&self) -> (r: &Vec<[S; 3]>)
        ensures
            r@ == self.spec_normals(),
    {
        &self.normals
    }

    /// The normal of each triangle.
    pub fn triangle_normals(&self) -> (r: &Vec<[S; 3]>)
        ensures
            r@ == self.spec_face_normals(),
    {
        &self.face_normals
    }

    /// The material every vertex carries.
    pub fn mesh_material(&self) -> (r: A)
        ensures
            r == self.spec_solid().spec_attribute(),
    {
        self.solid.attribute()
    }

    /// The detail level the sphere was last built at.
    pub fn detail(&self) -> (r: u32)
        ensures
            r == self.spec_solid().spec_detail(),
    {
        self.solid.detail()
    }
}

/// Two spheres built at the same detail with the same material and the same
/// operations have the same mesh, buffer for buffer, provided each
/// operation gives one result for one input.
pub proof fn lemma_rebuild_same_mesh<S: Copy, A: Copy, P, N, B>(
    first: Sphere<S, A>,
    second: Sphere<S, A>,
    place: &P,
    face_normal: &N,
    blend: &B,
) where
    P: Fn(GridPoint) -> [S; 3],
    N: Fn([S; 3], [S; 3], [S; 3]) -> [S; 3],
    B: Fn(&Vec<[S; 3]>) -> [S; 3],

    requires
        first.wf(),
        second.wf(),
        first.spec_solid().spec_detail() == second.spec_solid().spec_detail(),
        first.spec_solid().spec_attribute() == second.spec_solid().spec_attribute(),
        first.shaded_by(place, face_normal, blend),
        second.shaded_by(place, face_normal, blend),
        kernel_deterministic(place, face_normal, blend),
    ensures
        first.spec_mesh().vertices@ == second.spec_mesh().vertices@,
        first.spec_mesh().normals@ == second.spec_mesh().normals@,
        first.spec_mesh().indices@ == second.spec_mesh().indices@,
        first.spec_mesh().attributes@ == second.spec_mesh().attributes@,
        first.spec_mesh().index_count == second.spec_mesh().index_count,
{
    let vertices = first.spec_solid().spec_vertices();
    let triangles = first.spec_solid().spec_triangles();
    assert(vertices == second.spec_solid().spec_vertices());
    assert(triangles == second.spec_solid().spec_triangles());
    assert(first.spec_positions() =~= second.spec_positions());
    assert(first.spec_face_normals() =~= second.spec_face_normals());
    assert forall|v: int| 0 <= v < first.spec_normals().len() implies first.spec_normals()[v]
        == second.spec_normals()[v] by {
        let parts = gathered(first.spec_face_normals(), incident_faces(triangles, v));
        assert(blend_of(blend, parts, first.spec_normals()[v]));
        assert(blend_of(blend, parts, second.spec_normals()[v]));
        let list = choose|list: Vec<[S; 3]>|
            list@ == parts && #[trigger] call_ensures(blend, (&list,), first.spec_normals()[v]);
        let other = choose|other: Vec<[S; 3]>|
            other@ == parts && #[trigger] call_ensures(blend, (&other,), second.spec_normals()[v]);
        assert(call_ensures(blend, (&list,), first.spec_normals()[v]));
        assert(call_ensures(blend, (&other,), second.spec_normals()[v]));
    }
    assert(first.spec_normals() =~= second.spec_normals());
}

/// Whatever holds of every result of `place` holds of every position of the
/// sphere, and so of every three consecutive components of the mesh's
/// position buffer. A `place` that only gives points at one distance from
/// the origin thus yields a mesh whose vertices all lie at that distance.
pub proof fn lemma_positions_inherit<S: Copy, A: Copy, P, N, B>(
    sphere: Sphere<S, A>,
    place: &P,
    face_normal: &N,
    blend: &B,
    holds: spec_fn([S; 3]) -> bool,
    v: int,
) where
    P: Fn(GridPoint) -> [S; 3],
    N: Fn([S; 3], [S; 3], [S; 3]) -> [S; 3],
    B: Fn(&Vec<[S; 3]>) -> [S; 3],

    requires
        sphere.wf(),
        sphere.shaded_by(place, face_normal, blend),
        forall|p: GridPoint, x: [S; 3]| #[trigger] call_ensures(place, (p,), x) ==> holds(x),
        0 <= v < sphere.spec_solid().spec_vertices().len(),
    ensures
        holds(sphere.spec_positions()[v]),
        3 * v + 2 < sphere.spec_mesh().vertices@.len(),
        sphere.spec_mesh().vertices@[3 * v] == sphere.spec_positions()[v][0],
        sphere.spec_mesh().vertices@[3 * v + 1] == sphere.spec_positions()[v][1],
        sphere.spec_mesh().vertices@[3 * v + 2] == sphere.spec_positions()[v][2],
{
    let vertices = sphere.spec_solid().spec_vertices();
    assert(call_ensures(place, (vertices[v].position,), sphere.spec_positions()[v]));
}

/// Whatever holds of every result of `blend` holds of every vertex normal
/// of the sphere, and so of every three consecutive components of the
/// mesh's normal buffer. A `blend` that only gives unit vectors thus yields
/// a mesh whose normals are all unit vectors.
pub proof fn lemma_normals_inherit<S: Copy, A: Copy, P, N, B>(
    sphere: Sphere<S, A>,
    place: &P,
    face_normal: &N,
    blend: &B,
    holds: spec_fn([S; 3]) -> bool,
    v: int,
) where
    P: Fn(GridPoint) -> [S; 3],
    N: Fn([S; 3], [S; 3], [S; 3]) -> [S; 3],
    B: Fn(&Vec<[S; 3]>) -> [S; 3],

    requires
        sphere.wf(),
        sphere.shaded_by(place, face_normal, blend),
        forall|list: &Vec<[S; 3]>, x: [S; 3]| #[trigger]
            call_ensures(blend, (list,), x) ==> holds(x),
        0 <= v < sphere.spec_solid().spec_vertices().len(),
    ensures
        holds(sphere.spec_normals()[v]),
        3 * v + 2 < sphere.spec_mesh().normals@.len(),
        sphere.spec_mesh().normals@[3 * v] == sphere.spec_normals()[v][0],
        sphere.spec_mesh().normals@[3 * v + 1] == sphere.spec_normals()[v][1],
        sphere.spec_mesh().normals@[3 * v + 2] == sphere.spec_normals()[v][2],
{
    let parts = gathered(
        sphere.spec_face_normals(),
        incident_faces(sphere.spec_solid().spec_triangles(), v),
    );
    assert(blend_of(blend, parts, sphere.spec_normals()[v]));
    let list = choose|list: Vec<[S; 3]>|
        list@ == parts && #[trigger] call_ensures(blend, (&list,), sphere.spec_normals()[v]);
    assert(call_ensures(blend, (&list,), sphere.spec_normals()[v]));
}

/// The mesh of a sphere indexes only its own vertices, and has one
/// attribute, three position components and three normal components for
/// each of them.
pub proof fn lemma_mesh_is_consistent<S: Copy, A: Copy>(sphere: Sphere<S, A>)
    requires
        sphere.wf(),
    ensures
        sphere.spec_mesh().attributes@.len() == sphere.spec_solid().spec_vertices().len(),
        sphere.spec_mesh().vertices@.len() == 3 * sphere.spec_solid().spec_vertices().len(),
        sphere.spec_mesh().normals@.len() == 3 * sphere.spec_solid().spec_vertices().len(),
        sphere.spec_mesh().indices@.len() == 3 * sphere.spec_solid().spec_triangles().len(),
        sphere.spec_mesh().index_count == sphere.spec_mesh().indices@.len(),
        forall|i: int|
            0 <= i < sphere.spec_mesh().indices@.len() ==> #[trigger] sphere.spec_mesh().indices@[i]
                < sphere.spec_solid().spec_vertices().len(),
        forall|v: int|
            0 <= v < sphere.spec_mesh().attributes@.len()
                ==> #[trigger] sphere.spec_mesh().attributes@[v]
                == sphere.spec_solid().spec_attribute(),
{
    assert forall|v: int| 0 <= v < sphere.spec_mesh().attributes@.len() implies #[trigger]
        sphere.spec_mesh().attributes@[v] == sphere.spec_solid().spec_attribute() by {
        lemma_vertices_uniform(sphere.spec_solid(), v);
    }
}

} // verus!
