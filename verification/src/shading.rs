use vstd::prelude::*;
use crate::icosahedron::BASE_VERTEX_COUNT;
use crate::normals::{gathered, incident_faces, incident_lists, lemma_incident_faces_sound};
use crate::triangle::{all_within, Triangle};
use crate::vertex::{GridPoint, Vertex};

verus! {

/// The three numeric operations a mesh is shaded with can be called on
/// every input a solid gives rise to: `place` on every grid point of a face
/// of the icosahedron, `face_normal` on any three positions, and `blend` on
/// any list of face normals, the empty one included.
pub open spec fn kernel_total<S, P, N, B>(place: &P, face_normal: &N, blend: &B) -> bool where
    P: Fn(GridPoint) -> [S; 3],
    N: Fn([S; 3], [S; 3], [S; 3]) -> [S; 3],
    B: Fn(&Vec<[S; 3]>) -> [S; 3],
 {
    &&& forall|p: GridPoint| #[trigger]
        p.on_solid(BASE_VERTEX_COUNT as int) ==> call_requires(place, (p,))
    &&& forall|a: [S; 3], b: [S; 3], c: [S; 3]| #[trigger] call_requires(face_normal, (a, b, c))
    &&& forall|list: &Vec<[S; 3]>| #[trigger] call_requires(blend, (list,))
}

/// Each operation gives one result for one input; `blend` looks at nothing
/// but the entries of its list.
pub open spec fn kernel_deterministic<S, P, N, B>(place: &P, face_normal: &N, blend: &B) -> bool where
    P: Fn(GridPoint) -> [S; 3],
    N: Fn([S; 3], [S; 3], [S; 3]) -> [S; 3],
    B: Fn(&Vec<[S; 3]>) -> [S; 3],
 {
    &&& forall|p: GridPoint, x: [S; 3], y: [S; 3]|
        #![trigger call_ensures(place, (p,), x), call_ensures(place, (p,), y)]
        call_ensures(place, (p,), x) && call_ensures(place, (p,), y) ==> x == y
    &&& forall|a: [S; 3], b: [S; 3], c: [S; 3], x: [S; 3], y: [S; 3]|
        #![trigger call_ensures(face_normal, (a, b, c), x), call_ensures(face_normal, (a, b, c), y)]
        call_ensures(face_normal, (a, b, c), x) && call_ensures(face_normal, (a, b, c), y) ==> x
            == y
    &&& forall|list: &Vec<[S; 3]>, other: &Vec<[S; 3]>, x: [S; 3], y: [S; 3]|
        #![trigger call_ensures(blend, (list,), x), call_ensures(blend, (other,), y)]
        list@ == other@ && call_ensures(blend, (list,), x) && call_ensures(blend, (other,), y)
            ==> x == y
}

/// `positions` holds, for each vertex, a position that `place` gives for the
/// vertex's grid point.
pub open spec fn placed_by<S, A, P>(positions: Seq<[S; 3]>, vertices: Seq<Vertex<A>>, place: &P) -> bool where
    P: Fn(GridPoint) -> [S; 3],
 {
    &&& positions.len() == vertices.len()
    &&& forall|v: int|
        0 <= v < vertices.len() ==> call_ensures(
            place,
            (vertices[v].position,),
            #[trigger] positions[v],
        )
}

/// `face_normals` holds, for each triangle, a normal that `face_normal`
/// gives for the positions of the triangle's corners `a`, `b`, `c`.
pub open spec fn face_normals_by<S, N>(
    face_normals: Seq<[S; 3]>,
    triangles: Seq<Triangle>,
    positions: Seq<[S; 3]>,
    face_normal: &N,
) -> bool where N: Fn([S; 3], [S; 3], [S; 3]) -> [S; 3] {
    &&& face_normals.len() == triangles.len()
    &&& forall|t: int|
        0 <= t < triangles.len() ==> call_ensures(
            face_normal,
            (
                positions[triangles[t].a as int],
                positions[triangles[t].b as int],
                positions[triangles[t].c as int],
            ),
            #[trigger] face_normals[t],
        )
}

/// `normal` is a result of `blend` on a list with the entries `parts`.
pub open spec fn blend_of<S, B>(blend: &B, parts: Seq<[S; 3]>, normal: [S; 3]) -> bool where
    B: Fn(&Vec<[S; 3]>) -> [S; 3],
 {
    exists|list: Vec<[S; 3]>| list@ == parts && #[trigger] call_ensures(blend, (&list,), normal)
}

/// `normals` holds, for each vertex, a result of `blend` on the face
/// normals of the triangles that meet at the vertex, in triangle order.
pub open spec fn blended_by<S, B>(
    normals: Seq<[S; 3]>,
    triangles: Seq<Triangle>,
    face_normals: Seq<[S; 3]>,
    blend: &B,
) -> bool where B: Fn(&Vec<[S; 3]>) -> [S; 3] {
    forall|v: int|
        0 <= v < normals.len() ==> blend_of(
            blend,
            gathered(face_normals, incident_faces(triangles, v)),
            #[trigger] normals[v],
        )
}

/// Evaluates the position of every vertex.
pub fn place_vertices<S, A, P>(vertices: &Vec<Vertex<A>>, place: &P) -> (positions: Vec<[S; 3]>) where
    S: Copy,
    A: Copy,
    P: Fn(GridPoint) -> [S; 3],

    requires
        forall|v: int|
            0 <= v < vertices@.len() ==> call_requires(place, ((#[trigger] vertices@[v]).position,)),
    ensures
        placed_by(positions@, vertices@, place),
{
    let mut positions: Vec<[S; 3]> = Vec::new();
    let mut v: usize = 0;
    while v < vertices.len()
        invariant
            v <= vertices.len(),
            positions@.len() == v,
            forall|u: int|
                0 <= u < vertices@.len() ==> call_requires(
                    place,
                    ((#[trigger] vertices@[u]).position,),
                ),
            forall|u: int|
                0 <= u < v ==> call_ensures(
                    place,
                    (vertices@[u].position,),
                    #[trigger] positions@[u],
                ),
        decreases vertices.len() - v,
    {
        let position = place(vertices[v].position);
        positions.push(position);
        v = v + 1;
    }
    positions
}

/// Evaluates the normal of every triangle from the positions of its
/// corners.
pub fn face_normals<S, N>(
    triangles: &Vec<Triangle>,
    positions: &Vec<[S; 3]>,
    face_normal: &N,
) -> (normals: Vec<[S; 3]>) where S: Copy, N: Fn([S; 3], [S; 3], [S; 3]) -> [S; 3]
    requires
        all_within(triangles@, positions@.len() as int),
        forall|a: [S; 3], b: [S; 3], c: [S; 3]| #[trigger] call_requires(face_normal, (a, b, c)),
    ensures
        face_normals_by(normals@, triangles@, positions@, face_normal),
{
    let mut normals: Vec<[S; 3]> = Vec::new();
    let mut t: usize = 0;
    while t < triangles.len()
        invariant
            t <= triangles.len(),
            normals@.len() == t,
            all_within(triangles@, positions@.len() as int),
            forall|a: [S; 3], b: [S; 3], c: [S; 3]| #[trigger]
                call_requires(face_normal, (a, b, c)),
            forall|u: int|
                0 <= u < t ==> call_ensures(
                    face_normal,
                    (
                        positions@[triangles@[u].a as int],
                        positions@[triangles@[u].b as int],
                        positions@[triangles@[u].c as int],
                    ),
                    #[trigger] normals@[u],
                ),
        decreases triangles.len() - t,
    {
        let cell = triangles[t];
        assert(triangles@[t as int].within(positions@.len() as int));
        let normal = face_normal(positions[cell.a], positions[cell.b], positions[cell.c]);
        normals.push(normal);
        t = t + 1;
    }
    normals
}

/// Evaluates the normal of every vertex: the face normals of the triangles
/// that meet at the vertex are collected in triangle order and handed to
/// `blend`. A vertex that no triangle touches hands `blend` an empty list.
pub fn vertex_normals<S, B>(
    triangles: &Vec<Triangle>,
    vertex_count: usize,
    face_normals: &Vec<[S; 3]>,
    blend: &B,
) -> (normals: Vec<[S; 3]>) where S: Copy, B: Fn(&Vec<[S; 3]>) -> [S; 3]
    requires
        all_within(triangles@, vertex_count as int),
        face_normals@.len() == triangles@.len(),
        forall|list: &Vec<[S; 3]>| #[trigger] call_requires(blend, (list,)),
    ensures
        normals@.len() == vertex_count,
        blended_by(normals@, triangles@, face_normals@, blend),
{
    let lists = incident_lists(triangles, vertex_count);
    assert(triangles@.len() == triangles.len());
    let mut normals: Vec<[S; 3]> = Vec::new();
    let mut v: usize = 0;
    while v < vertex_count
        invariant
            v <= vertex_count,
            normals@.len() == v,
            lists@.len() == vertex_count,
            face_normals@.len() == triangles@.len(),
            triangles@.len() <= usize::MAX,
            forall|u: int|
                0 <= u < vertex_count ==> (#[trigger] lists@[u])@ == incident_faces(triangles@, u),
            forall|list: &Vec<[S; 3]>| #[trigger] call_requires(blend, (list,)),
            blended_by(normals@, triangles@, face_normals@, blend),
        decreases vertex_count - v,
    {
        let list = &lists[v];
        let ghost incident = incident_faces(triangles@, v as int);
        let mut parts: Vec<[S; 3]> = Vec::new();
        let mut k: usize = 0;
        while k < list.len()
            invariant
                k <= list.len(),
                parts@.len() == k,
                list@ == incident,
                incident == incident_faces(triangles@, v as int),
                face_normals@.len() == triangles@.len(),
                triangles@.len() <= usize::MAX,
                forall|i: int| 0 <= i < k ==> #[trigger] parts@[i] == face_normals@[incident[i] as int],
            decreases list.len() - k,
        {
            proof {
                lemma_incident_faces_sound(triangles@, v as int, k as int);
            }
            parts.push(face_normals[list[k]]);
            k = k + 1;
        }
        assert(parts@ =~= gathered(face_normals@, incident));
        let normal = blend(&parts);
        assert(blend_of(blend, gathered(face_normals@, incident), normal));
        let ghost before = normals@;
        normals.push(normal);
        assert forall|u: int| 0 <= u < normals@.len() implies blend_of(
            blend,
            gathered(face_normals@, incident_faces(triangles@, u)),
            #[trigger] normals@[u],
        ) by {
            if u < v {
                assert(normals@[u] == before[u]);
            }
        }
        v = v + 1;
    }
    normals
}

} // verus!
