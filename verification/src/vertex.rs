use vstd::prelude::*;

verus! {

/// A fraction `num / den` with a non-zero denominator, kept exact.
#[derive(Copy, Clone, Debug, PartialEq, Eq, Structural)]
pub struct Ratio {
    pub num: usize,
    pub den: usize,
}

/// How a grid point is reached from the corners of its face: first both
/// lower corners move toward the apex by `toward_apex`, then the point is
/// taken between the two moved corners at `across`. At the apex itself the
/// two moved corners coincide and there is nothing to take between.
#[derive(Copy, Clone, Debug, PartialEq, Eq, Structural)]
pub struct Blend {
    pub toward_apex: Ratio,
    pub across: Option<Ratio>,
}

/// A point of the triangular grid laid over one face of the base solid.
///
/// `a`, `b` and `c` are the face's corners in the base solid, `c` being the
/// apex. Row 0 runs along the edge from `a` to `b` and has `cols + 1`
/// points; each further row is one point shorter, and row `cols` is the apex
/// alone.
#[derive(Copy, Clone, Debug, PartialEq, Eq, Structural)]
pub struct GridPoint {
    pub a: usize,
    pub b: usize,
    pub c: usize,
    pub row: usize,
    pub col: usize,
    pub cols: usize,
}

impl GridPoint {
    /// The point lies on its grid.
    pub open spec fn wf(self) -> bool {
        &&& self.cols >= 1
        &&& self.row <= self.cols
        &&& self.col <= self.cols - self.row
    }

    /// The point lies on its grid, and its face is a face of a solid with
    /// `corners` corners.
    pub open spec fn on_solid(self, corners: int) -> bool {
        &&& self.wf()
        &&& self.a < corners
        &&& self.b < corners
        &&& self.c < corners
    }

    /// The weights of the corners `a`, `b`, `c` at this point, in units of
    /// one `cols`-th: the point is the weighted mean of the three corners.
    pub open spec fn weights(self) -> (int, int, int) {
        (self.cols - self.row - self.col, self.col as int, self.row as int)
    }

    /// The blend that `blend` computes.
    pub open spec fn spec_blend(self) -> Blend {
        Blend {
            toward_apex: Ratio { num: self.row, den: self.cols },
            across: if self.row == self.cols {
                None
            } else {
                Some(Ratio { num: self.col, den: (self.cols - self.row) as usize })
            },
        }
    }

    /// The two interpolation steps that lead to this point. No denominator
    /// is zero and no fraction exceeds one.
    pub fn blend(&self) -> (r: Blend)
        requires
            self.wf(),
        ensures
            r == self.spec_blend(),
            0 < r.toward_apex.den,
            r.toward_apex.num <= r.toward_apex.den,
            r.across matches Some(t) ==> 0 < t.den && t.num <= t.den,
    {
        let across = if self.row == self.cols {
            None
        } else {
            Some(Ratio { num: self.col, den: self.cols - self.row })
        };
        Blend { toward_apex: Ratio { num: self.row, den: self.cols }, across }
    }
}

/// In exact arithmetic the two steps of `blend` give the weighted mean of
/// the corners with the weights of `weights`: taking `1 - t` of one end and
/// `t` of the other at each step, corner `a` ends up with the share
/// `(1 - toward_apex) * (1 - across)`, corner `b` with
/// `(1 - toward_apex) * across`, and corner `c` with `toward_apex`. The laws
/// are stated with the denominators multiplied out.
pub proof fn lemma_blend_weights(p: GridPoint)
    requires
        p.wf(),
    ensures
        p.weights().0 + p.weights().1 + p.weights().2 == p.cols,
        0 <= p.weights().0 && 0 <= p.weights().1 && 0 <= p.weights().2,
        p.spec_blend().toward_apex.num * p.cols == p.weights().2
            * p.spec_blend().toward_apex.den,
        p.spec_blend().across matches Some(across) ==> {
            let toward = p.spec_blend().toward_apex;
            &&& (toward.den - toward.num) * (across.den - across.num) * p.cols == p.weights().0
                * (toward.den * across.den)
            &&& (toward.den - toward.num) * across.num * p.cols == p.weights().1 * (toward.den
                * across.den)
        },
        p.spec_blend().across is None ==> p.weights() == (0int, 0int, p.cols as int),
{
    let cols = p.cols as int;
    let row = p.row as int;
    let col = p.col as int;
    if p.row != p.cols {
        assert((cols - row) * ((cols - row) - col) * cols == (cols - row - col) * (cols * (cols
            - row))) by (nonlinear_arith);
        assert((cols - row) * col * cols == col * (cols * (cols - row))) by (nonlinear_arith);
    }
}

/// One vertex of a solid: where it lies, and the shading attribute it
/// carries.
#[derive(Copy, Clone, Debug)]
pub struct Vertex<A> {
    pub position: GridPoint,
    pub attribute: A,
}

} // verus!
