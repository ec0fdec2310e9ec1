use vstd::prelude::*;
use crate::triangle::{all_within, Triangle};

verus! {

/// A coordinate of a corner of the regular icosahedron. `Phi` stands for the
/// golden ratio, (1 + sqrt 5) / 2.
#[derive(Copy, Clone, Debug, PartialEq, Eq, Structural)]
pub enum Coord {
    Zero,
    One,
    NegOne,
    Phi,
    NegPhi,
}

impl Coord {
    /// Plus or minus one.
    pub open spec fn is_unit(self) -> bool {
        self == Coord::One || self == Coord::NegOne
    }

    /// Plus or minus the golden ratio.
    pub open spec fn is_golden(self) -> bool {
        self == Coord::Phi || self == Coord::NegPhi
    }
}

/// A corner of the regular icosahedron centred at the origin.
#[derive(Copy, Clone, Debug, PartialEq, Eq, Structural)]
pub struct Corner {
    pub x: Coord,
    pub y: Coord,
    pub z: Coord,
}

impl Corner {
    /// The corner is (±1, ±φ, 0) or one of its two cyclic shifts.
    pub open spec fn on_golden_rectangle(self) -> bool {
        ||| self.x.is_unit() && self.y.is_golden() && self.z == Coord::Zero
        ||| self.x == Coord::Zero && self.y.is_unit() && self.z.is_golden()
        ||| self.x.is_golden() && self.y == Coord::Zero && self.z.is_unit()
    }
}

/// Number of corners of the icosahedron.
pub const BASE_VERTEX_COUNT: usize = 12;

/// Number of faces of the icosahedron.
pub const BASE_FACE_COUNT: usize = 20;

/// The twelve corners, in the order the face table refers to them.
pub open spec fn base_corners() -> Seq<Corner> {
    seq![
        Corner { x: Coord::NegOne, y: Coord::Phi, z: Coord::Zero },
        Corner { x: Coord::One, y: Coord::Phi, z: Coord::Zero },
        Corner { x: Coord::NegOne, y: Coord::NegPhi, z: Coord::Zero },
        Corner { x: Coord::One, y: Coord::NegPhi, z: Coord::Zero },
        Corner { x: Coord::Zero, y: Coord::NegOne, z: Coord::Phi },
        Corner { x: Coord::Zero, y: Coord::One, z: Coord::Phi },
        Corner { x: Coord::Zero, y: Coord::NegOne, z: Coord::NegPhi },
        Corner { x: Coord::Zero, y: Coord::One, z: Coord::NegPhi },
        Corner { x: Coord::Phi, y: Coord::Zero, z: Coord::NegOne },
        Corner { x: Coord::Phi, y: Coord::Zero, z: Coord::One },
        Corner { x: Coord::NegPhi, y: Coord::Zero, z: Coord::NegOne },
        Corner { x: Coord::NegPhi, y: Coord::Zero, z: Coord::One },
    ]
}

/// The twenty faces, each wound so that its normal points outward.
pub open spec fn base_faces() -> Seq<Triangle> {
    seq![
        Triangle { a: 0, b: 11, c: 5 },
        Triangle { a: 0, b: 5, c: 1 },
        Triangle { a: 0, b: 1, c: 7 },
        Triangle { a: 0, b: 7, c: 10 },
        Triangle { a: 0, b: 10, c: 11 },
        Triangle { a: 1, b: 5, c: 9 },
        Triangle { a: 5, b: 11, c: 4 },
        Triangle { a: 11, b: 10, c: 2 },
        Triangle { a: 10, b: 7, c: 6 },
        Triangle { a: 7, b: 1, c: 8 },
        Triangle { a: 3, b: 9, c: 4 },
        Triangle { a: 3, b: 4, c: 2 },
        Triangle { a: 3, b: 2, c: 6 },
        Triangle { a: 3, b: 6, c: 8 },
        Triangle { a: 3, b: 8, c: 9 },
        Triangle { a: 4, b: 9, c: 5 },
        Triangle { a: 2, b: 4, c: 11 },
        Triangle { a: 6, b: 2, c: 10 },
        Triangle { a: 8, b: 6, c: 7 },
        Triangle { a: 9, b: 8, c: 1 },
    ]
}

/// The corners of the icosahedron: twelve distinct points, each on one of
/// the three golden rectangles.
pub fn corners() -> (r: Vec<Corner>)
    ensures
        r@ == base_corners(),
        r@.len() == BASE_VERTEX_COUNT,
        forall|i: int| 0 <= i < r@.len() ==> (#[trigger] r@[i]).on_golden_rectangle(),
        forall|i: int, j: int| 0 <= i < j < r@.len() ==> r@[i] != r@[j],
{
    let r = vec![
        Corner { x: Coord::NegOne, y: Coord::Phi, z: Coord::Zero },
        Corner { x: Coord::One, y: Coord::Phi, z: Coord::Zero },
        Corner { x: Coord::NegOne, y: Coord::NegPhi, z: Coord::Zero },
        Corner { x: Coord::One, y: Coord::NegPhi, z: Coord::Zero },
        Corner { x: Coord::Zero, y: Coord::NegOne, z: Coord::Phi },
        Corner { x: Coord::Zero, y: Coord::One, z: Coord::Phi },
        Corner { x: Coord::Zero, y: Coord::NegOne, z: Coord::NegPhi },
        Corner { x: Coord::Zero, y: Coord::One, z: Coord::NegPhi },
        Corner { x: Coord::Phi, y: Coord::Zero, z: Coord::NegOne },
        Corner { x: Coord::Phi, y: Coord::Zero, z: Coord::One },
        Corner { x: Coord::NegPhi, y: Coord::Zero, z: Coord::NegOne },
        Corner { x: Coord::NegPhi, y: Coord::Zero, z: Coord::One },
    ];
    assert(r@ =~= base_corners());
    r
}

/// The faces of the icosahedron, as triples of corner indices.
pub fn faces() -> (r: Vec<Triangle>)
    ensures
        r@ == base_faces(),
        r@.len() == BASE_FACE_COUNT,
        all_within(r@, BASE_VERTEX_COUNT as int),
{
    let r = vec![
        Triangle::new(0, 11, 5),
        Triangle::new(0, 5, 1),
        Triangle::new(0, 1, 7),
        Triangle::new(0, 7, 10),
        Triangle::new(0, 10, 11),
        Triangle::new(1, 5, 9),
        Triangle::new(5, 11, 4),
        Triangle::new(11, 10, 2),
        Triangle::new(10, 7, 6),
        Triangle::new(7, 1, 8),
        Triangle::new(3, 9, 4),
        Triangle::new(3, 4, 2),
        Triangle::new(3, 2, 6),
        Triangle::new(3, 6, 8),
        Triangle::new(3, 8, 9),
        Triangle::new(4, 9, 5),
        Triangle::new(2, 4, 11),
        Triangle::new(6, 2, 10),
        Triangle::new(8, 6, 7),
        Triangle::new(9, 8, 1),
    ];
    assert(r@ =~= base_faces());
    r
}

/// Side `side` of `face` as a directed edge: from `a` to `b`, from `b` to
/// `c`, from `c` to `a`.
pub open spec fn edge(face: Triangle, side: int) -> (usize, usize) {
    if side == 0 {
        (face.a, face.b)
    } else if side == 1 {
        (face.b, face.c)
    } else {
        (face.c, face.a)
    }
}

/// `side` is a side of face number `f`.
pub open spec fn is_side(faces: Seq<Triangle>, f: int, side: int) -> bool {
    0 <= f < faces.len() && 0 <= side < 3
}

/// The faces form a closed surface with one winding: no directed edge
/// belongs to two sides, and the reverse of every side is a side.
pub open spec fn closed_surface(faces: Seq<Triangle>) -> bool {
    forall|f: int, s: int| #[trigger]
        is_side(faces, f, s) ==> {
            &&& exists|g: int, r: int| #[trigger]
                is_side(faces, g, r) && edge(faces[g], r) == (
                    edge(faces[f], s).1,
                    edge(faces[f], s).0,
                )
            &&& forall|g: int, r: int| #[trigger]
                is_side(faces, g, r) && edge(faces[g], r) == edge(faces[f], s) ==> g == f && r
                    == s
        }
}

/// The face across side `side` of face `f` of the icosahedron, and the side
/// of that face that runs the other way along the same edge.
pub open spec fn base_twin(f: int, side: int) -> (int, int) {
    base_twins()[3 * f + side]
}

/// `base_twin` as a table, three entries per face.
pub open spec fn base_twins() -> Seq<(int, int)> {
    seq![
        (4, 2), (6, 0), (1, 0),
        (0, 2), (5, 0), (2, 0),
        (1, 2), (9, 0), (3, 0),
        (2, 2), (8, 0), (4, 0),
        (3, 2), (7, 0), (0, 0),
        (1, 1), (15, 1), (19, 2),
        (0, 1), (16, 1), (15, 2),
        (4, 1), (17, 1), (16, 2),
        (3, 1), (18, 1), (17, 2),
        (2, 1), (19, 1), (18, 2),
        (14, 2), (15, 0), (11, 0),
        (10, 2), (16, 0), (12, 0),
        (11, 2), (17, 0), (13, 0),
        (12, 2), (18, 0), (14, 0),
        (13, 2), (19, 0), (10, 0),
        (10, 1), (5, 1), (6, 2),
        (11, 1), (6, 1), (7, 2),
        (12, 1), (7, 1), (8, 2),
        (13, 1), (8, 1), (9, 2),
        (14, 1), (9, 1), (5, 2),
    ]
}

/// One side of the icosahedron has its reverse where `base_twin` says, and
/// shares its directed edge with no other side.
proof fn lemma_base_side(f: int, s: int)
    requires
        is_side(base_faces(), f, s),
    ensures
        is_side(base_faces(), base_twin(f, s).0, base_twin(f, s).1),
        edge(base_faces()[base_twin(f, s).0], base_twin(f, s).1) == (
            edge(base_faces()[f], s).1,
            edge(base_faces()[f], s).0,
        ),
        forall|g: int, r: int| #[trigger]
            is_side(base_faces(), g, r) && edge(base_faces()[g], r) == edge(base_faces()[f], s)
                ==> g == f && r == s,
{
}

/// The icosahedron is a closed surface whose faces all wind the same way.
pub proof fn lemma_base_is_closed_surface()
    ensures
        closed_surface(base_faces()),
{
    assert forall|f: int, s: int| #[trigger] is_side(base_faces(), f, s) implies {
        &&& exists|g: int, r: int| #[trigger]
            is_side(base_faces(), g, r) && edge(base_faces()[g], r) == (
                edge(base_faces()[f], s).1,
                edge(base_faces()[f], s).0,
            )
        &&& forall|g: int, r: int| #[trigger]
            is_side(base_faces(), g, r) && edge(base_faces()[g], r) == edge(base_faces()[f], s)
                ==> g == f && r == s
    } by {
        lemma_base_side(f, s);
        let t = base_twin(f, s);
        assert(is_side(base_faces(), t.0, t.1));
    }
}

} // verus!
