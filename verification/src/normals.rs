use vstd::prelude::*;
use crate::triangle::{all_within, Triangle};

verus! {

/// What triangle number `t` adds to the normal of vertex `v`: its own
/// number, once for each of its corners that is `v`.
pub open spec fn contributions(triangle: Triangle, t: int, v: int) -> Seq<usize> {
    (if triangle.a == v {
        seq![t as usize]
    } else {
        Seq::empty()
    }) + (if triangle.b == v {
        seq![t as usize]
    } else {
        Seq::empty()
    }) + (if triangle.c == v {
        seq![t as usize]
    } else {
        Seq::empty()
    })
}

/// The triangles whose face normals are summed into the normal of vertex
/// `v`, in the order in which they are summed: triangle by triangle, and
/// within a triangle corner by corner.
pub open spec fn incident_faces(triangles: Seq<Triangle>, v: int) -> Seq<usize>
    decreases triangles.len(),
{
    if triangles.len() == 0 {
        Seq::empty()
    } else {
        incident_faces(triangles.drop_last(), v) + contributions(
            triangles.last(),
            triangles.len() - 1,
            v,
        )
    }
}

/// The face normals that `incident` selects, in its order.
pub open spec fn gathered<S>(face_normals: Seq<[S; 3]>, incident: Seq<usize>) -> Seq<[S; 3]> {
    Seq::new(incident.len(), |k: int| face_normals[incident[k] as int])
}

/// Every triangle listed for a vertex is a triangle of the list, and has
/// the vertex as a corner.
pub proof fn lemma_incident_faces_sound(triangles: Seq<Triangle>, v: int, k: int)
    requires
        triangles.len() <= usize::MAX,
        0 <= k < incident_faces(triangles, v).len(),
    ensures
        incident_faces(triangles, v)[k] < triangles.len(),
        ({
            let t = triangles[incident_faces(triangles, v)[k] as int];
            t.a == v || t.b == v || t.c == v
        }),
    decreases triangles.len(),
{
    if triangles.len() > 0 {
        let before = incident_faces(triangles.drop_last(), v);
        if k < before.len() {
            lemma_incident_faces_sound(triangles.drop_last(), v, k);
        }
    }
}

/// A triangle with `v` as a corner is listed for `v`.
pub proof fn lemma_incident_faces_complete(triangles: Seq<Triangle>, v: int, t: int)
    requires
        triangles.len() <= usize::MAX,
        0 <= t < triangles.len(),
        triangles[t].a == v || triangles[t].b == v || triangles[t].c == v,
    ensures
        incident_faces(triangles, v).contains(t as usize),
    decreases triangles.len(),
{
    let before = incident_faces(triangles.drop_last(), v);
    let added = contributions(triangles.last(), triangles.len() - 1, v);
    let all = incident_faces(triangles, v);
    if t < triangles.len() - 1 {
        lemma_incident_faces_complete(triangles.drop_last(), v, t);
        let k = choose|k: int| 0 <= k < before.len() && before[k] == t as usize;
        assert(all[k] == t as usize);
    } else {
        assert(added.len() > 0);
        assert(added[0] == t as usize);
        assert(all[before.len() as int] == added[0]);
    }
}

/// For each vertex, the triangles whose face normals make up its normal.
pub fn incident_lists(triangles: &Vec<Triangle>, vertex_count: usize) -> (lists: Vec<Vec<usize>>)
    requires
        all_within(triangles@, vertex_count as int),
    ensures
        lists@.len() == vertex_count,
        forall|v: int|
            0 <= v < vertex_count ==> (#[trigger] lists@[v])@ == incident_faces(triangles@, v),
{
    let mut lists: Vec<Vec<usize>> = Vec::new();
    let mut v: usize = 0;
    while v < vertex_count
        invariant
            v <= vertex_count,
            lists@.len() == v,
            forall|u: int| 0 <= u < v ==> (#[trigger] lists@[u])@ == Seq::<usize>::empty(),
        decreases vertex_count - v,
    {
        lists.push(Vec::new());
        v = v + 1;
    }
    let mut t: usize = 0;
    assert(triangles@.take(0) =~= Seq::<Triangle>::empty());
    while t < triangles.len()
        invariant
            t <= triangles.len(),
            all_within(triangles@, vertex_count as int),
            lists@.len() == vertex_count,
            forall|u: int|
                0 <= u < vertex_count ==> (#[trigger] lists@[u])@ == incident_faces(
                    triangles@.take(t as int),
                    u,
                ),
        decreases triangles.len() - t,
    {
        let cell = triangles[t];
        let ghost before = lists@;
        assert(triangles@[t as int].within(vertex_count as int));
        assert(triangles@.take(t + 1).drop_last() =~= triangles@.take(t as int));
        assert(triangles@.take(t + 1).last() == cell);
        lists[cell.a].push(t);
        lists[cell.b].push(t);
        lists[cell.c].push(t);
        assert forall|u: int| 0 <= u < vertex_count implies (#[trigger] lists@[u])@
            == incident_faces(triangles@.take(t + 1), u) by {
            assert(lists@[u]@ =~= before[u]@ + contributions(cell, t as int, u));
        }
        t = t + 1;
    }
    assert(triangles@.take(triangles@.len() as int) =~= triangles@);
    lists
}

} // verus!
