use vstd::prelude::*;

verus! {

/// Three indices into a vertex list. The order of the corners fixes the
/// winding, and with it the side the face normal points to.
#[derive(Copy, Clone, Debug, PartialEq, Eq, Structural)]
pub struct Triangle {
    pub a: usize,
    pub b: usize,
    pub c: usize,
}

impl Triangle {
    /// The triangle with corners `a`, `b`, `c`, in that order.
    pub fn new(a: usize, b: usize, c: usize) -> (t: Triangle)
        ensures
            t == (Triangle { a, b, c }),
    {
        Triangle { a, b, c }
    }

    /// All three corners index into a vertex list of length `n`.
    pub open spec fn within(self, n: int) -> bool {
        self.a < n && self.b < n && self.c < n
    }
}

/// Every triangle of `triangles` indexes into a vertex list of length `n`.
pub open spec fn all_within(triangles: Seq<Triangle>, n: int) -> bool {
    forall|t: int| 0 <= t < triangles.len() ==> (#[trigger] triangles[t]).within(n)
}

} // verus!
