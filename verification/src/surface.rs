//! The surface of a bicubic patch at the parameters of a uniform grid.
//!
//! A patch is a grid of four rows of four control points. Its surface at the
//! parameters `(u, v)` is the sum of the control points, each weighted with
//! the Bernstein basis value of its row at `v` times that of its column at
//! `u`. On a grid of `nr` rows and `nc` columns the parameters are
//! `u = c / (nc - 1)` and `v = r / (nr - 1)`, and all weights are integers
//! over a common denominator.

use vstd::prelude::*;
use crate::basis::{bernstein_row, lemma_bernstein_ends, slope_row};
use crate::vertex::{lemma_scaled_by_one, lemma_scaled_same, Fraction, Point, Uv, UNIT};

verus! {

/// A grid of control points as a contract sees it: four rows of four points
/// of weight [`UNIT`].
pub open spec fn is_grid(grid: Seq<Seq<Point>>) -> bool {
    &&& grid.len() == 4
    &&& forall|a: int| 0 <= a < 4 ==> (#[trigger] grid[a]).len() == 4
    &&& forall|a: int, b: int| 0 <= a < 4 && 0 <= b < 4 ==> (#[trigger] grid[a][b]).w == UNIT
}

/// The weight of control point `b` in row `a`: the product of the weight
/// `wv[a]` of its row and the weight `wu[b]` of its column.
pub open spec fn weight(wv: Seq<int>, wu: Seq<int>, a: int, b: int) -> int {
    wv[a] * wu[b]
}

/// The weighted sum of coordinate `k` over the first `count` control points
/// of a patch, taken row by row. With `count == 16` it is the sum over the
/// whole patch.
pub open spec fn blend(wv: Seq<int>, wu: Seq<int>, grid: Seq<Seq<Point>>, k: int, count: nat) -> int
    decreases count,
{
    if count == 0 {
        0
    } else {
        let a = (count - 1) / 4;
        let b = (count - 1) % 4;
        blend(wv, wu, grid, k, (count - 1) as nat) + weight(wv, wu, a, b) * grid[a][b].coord(k)
    }
}

/// The number by which the weight of a control point is multiplied in the
/// weight of a sample: the cube of the number of steps along `v` times the
/// cube of the number of steps along `u`.
pub open spec fn steps_cubed(nr: int, nc: int) -> int {
    let m = nr - 1;
    let n = nc - 1;
    (m * m * m) * (n * n * n)
}

/// The position of the sample in row `r` and column `c` of a grid of `nr`
/// rows and `nc` columns: the surface at `u = c / (nc - 1)`, `v = r / (nr - 1)`.
///
/// Each control point is weighted with the basis value of its row at `v`
/// times the basis value of its column at `u`. The weight of the point is
/// the common denominator of those products and of the control points.
pub open spec fn sample_position(grid: Seq<Seq<Point>>, nr: int, nc: int, r: int, c: int) -> Point {
    let m = nr - 1;
    let n = nc - 1;
    let wv = bernstein_row(m, r);
    let wu = bernstein_row(n, c);
    Point {
        x: blend(wv, wu, grid, 0, 16),
        y: blend(wv, wu, grid, 1, 16),
        z: blend(wv, wu, grid, 2, 16),
        w: UNIT * ((m * m * m) * (n * n * n)),
    }
}

/// The derivative of the surface along `u` at the same sample: the columns
/// are weighted with the derivative of the basis.
pub open spec fn sample_tangent_u(grid: Seq<Seq<Point>>, nr: int, nc: int, r: int, c: int) -> Point {
    let m = nr - 1;
    let n = nc - 1;
    let wv = bernstein_row(m, r);
    let wu = slope_row(n, c);
    Point {
        x: blend(wv, wu, grid, 0, 16),
        y: blend(wv, wu, grid, 1, 16),
        z: blend(wv, wu, grid, 2, 16),
        w: UNIT * ((m * m * m) * (n * n)),
    }
}

/// The derivative of the surface along `v` at the same sample: the rows are
/// weighted with the derivative of the basis.
pub open spec fn sample_tangent_v(grid: Seq<Seq<Point>>, nr: int, nc: int, r: int, c: int) -> Point {
    let m = nr - 1;
    let n = nc - 1;
    let wv = slope_row(m, r);
    let wu = bernstein_row(n, c);
    Point {
        x: blend(wv, wu, grid, 0, 16),
        y: blend(wv, wu, grid, 1, 16),
        z: blend(wv, wu, grid, 2, 16),
        w: UNIT * ((m * m) * (n * n * n)),
    }
}

/// The texture coordinate of the same sample: `u = c / (nc - 1)` and
/// `v = r / (nr - 1)`.
pub open spec fn sample_uv(nr: int, nc: int, r: int, c: int) -> Uv {
    Uv {
        u: Fraction { num: c as u32, den: (nc - 1) as u32 },
        v: Fraction { num: r as u32, den: (nr - 1) as u32 },
    }
}

/// The weight of a position and the scales of both tangents are positive.
pub proof fn lemma_sample_scales(grid: Seq<Seq<Point>>, nr: int, nc: int, r: int, c: int)
    requires
        2 <= nr,
        2 <= nc,
    ensures
        sample_position(grid, nr, nc, r, c).w == UNIT * steps_cubed(nr, nc),
        sample_position(grid, nr, nc, r, c).w >= UNIT,
        sample_tangent_u(grid, nr, nc, r, c).w >= UNIT,
        sample_tangent_v(grid, nr, nc, r, c).w >= UNIT,
{
    let m = nr - 1;
    let n = nc - 1;
    let m2 = m * m;
    let m3 = m * m * m;
    let n2 = n * n;
    let n3 = n * n * n;
    assert(1 <= m2 && 1 <= m3 && 1 <= n2 && 1 <= n3) by (nonlinear_arith)
        requires
            1 <= m,
            1 <= n,
            m2 == m * m,
            m3 == m * m * m,
            n2 == n * n,
            n3 == n * n * n,
    ;
    assert(1 <= m3 * n3 && 1 <= m3 * n2 && 1 <= m2 * n3) by (nonlinear_arith)
        requires
            1 <= m2,
            1 <= m3,
            1 <= n2,
            1 <= n3,
    ;
}

/// Where all weights but that of control point `b0` in row `a0` are zero,
/// the weighted sum is that control point's term.
proof fn lemma_blend_single(
    wv: Seq<int>,
    wu: Seq<int>,
    grid: Seq<Seq<Point>>,
    k: int,
    a0: int,
    b0: int,
    count: nat,
)
    requires
        0 <= a0 < 4,
        0 <= b0 < 4,
        count <= 16,
        forall|a: int, b: int|
            0 <= a < 4 && 0 <= b < 4 && (a != a0 || b != b0) ==> #[trigger] weight(wv, wu, a, b)
                == 0,
    ensures
        blend(wv, wu, grid, k, count) == if count > 4 * a0 + b0 {
            weight(wv, wu, a0, b0) * grid[a0][b0].coord(k)
        } else {
            0
        },
    decreases count,
{
    if count > 0 {
        lemma_blend_single(wv, wu, grid, k, a0, b0, (count - 1) as nat);
        let a = (count - 1) / 4;
        let b = (count - 1) % 4;
        if a != a0 || b != b0 {
            assert(weight(wv, wu, a, b) == 0);
        }
    }
}

/// At a corner of the parameter square the surface is at a corner control
/// point: with `v` at 0 or 1 the row is 0 or 3, with `u` at 0 or 1 the column
/// is 0 or 3. The sample is that control point with every component
/// multiplied by [`steps_cubed`].
pub proof fn lemma_corner(grid: Seq<Seq<Point>>, nr: int, nc: int, r: int, c: int, a0: int, b0: int)
    requires
        is_grid(grid),
        2 <= nr,
        2 <= nc,
        (r == 0 && a0 == 0) || (r == nr - 1 && a0 == 3),
        (c == 0 && b0 == 0) || (c == nc - 1 && b0 == 3),
    ensures
        1 <= steps_cubed(nr, nc),
        sample_position(grid, nr, nc, r, c) == grid[a0][b0].scaled(steps_cubed(nr, nc)),
        sample_position(grid, nr, nc, r, c).same_as(grid[a0][b0]),
{
    let m = nr - 1;
    let n = nc - 1;
    let m3 = m * m * m;
    let n3 = n * n * n;
    let d = steps_cubed(nr, nc);
    let wv = bernstein_row(m, r);
    let wu = bernstein_row(n, c);
    let cp = grid[a0][b0];
    assert(1 <= m3 && 1 <= n3 && 1 <= m3 * n3) by (nonlinear_arith)
        requires
            1 <= m,
            1 <= n,
            m3 == m * m * m,
            n3 == n * n * n,
    ;
    assert forall|a: int| 0 <= a < 4 implies #[trigger] wv[a] == if a == a0 { m3 } else { 0 } by {
        lemma_bernstein_ends(m, a);
    }
    assert forall|b: int| 0 <= b < 4 implies #[trigger] wu[b] == if b == b0 { n3 } else { 0 } by {
        lemma_bernstein_ends(n, b);
    }
    assert forall|a: int, b: int|
        0 <= a < 4 && 0 <= b < 4 && (a != a0 || b != b0) implies #[trigger] weight(wv, wu, a, b)
        == 0 by {
        let x = wv[a];
        let y = wu[b];
        assert(x * y == 0) by (nonlinear_arith)
            requires
                x == 0 || y == 0,
        ;
    }
    assert(weight(wv, wu, a0, b0) == d);
    lemma_blend_single(wv, wu, grid, 0, a0, b0, 16);
    lemma_blend_single(wv, wu, grid, 1, a0, b0, 16);
    lemma_blend_single(wv, wu, grid, 2, a0, b0, 16);
    let s = sample_position(grid, nr, nc, r, c);
    assert(s.x == d * cp.x && s.y == d * cp.y && s.z == d * cp.z && s.w == d * cp.w) by {
        assert(UNIT * d == d * UNIT) by (nonlinear_arith);
    }
    lemma_scaled_same(cp, d);
}

/// On a grid of two rows and two columns the four samples are the four
/// corner control points themselves.
pub proof fn lemma_corners_of_two_by_two(grid: Seq<Seq<Point>>)
    requires
        is_grid(grid),
    ensures
        sample_position(grid, 2, 2, 0, 0) == grid[0][0],
        sample_position(grid, 2, 2, 0, 1) == grid[0][3],
        sample_position(grid, 2, 2, 1, 0) == grid[3][0],
        sample_position(grid, 2, 2, 1, 1) == grid[3][3],
{
    lemma_corner(grid, 2, 2, 0, 0, 0, 0);
    lemma_corner(grid, 2, 2, 0, 1, 0, 3);
    lemma_corner(grid, 2, 2, 1, 0, 3, 0);
    lemma_corner(grid, 2, 2, 1, 1, 3, 3);
    assert(steps_cubed(2, 2) == 1);
    lemma_scaled_by_one(grid[0][0]);
    lemma_scaled_by_one(grid[0][3]);
    lemma_scaled_by_one(grid[3][0]);
    lemma_scaled_by_one(grid[3][3]);
}

} // verus!
