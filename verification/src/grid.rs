//! The triangles of a sampled grid.
//!
//! A grid of `nr` rows and `nc` columns has its samples numbered row by row:
//! the sample in row `r` and column `c` has the number `r * nc + c`. Each cell
//! of four neighbouring samples is covered by two triangles with the same
//! orientation.

use vstd::prelude::*;
use vstd::arithmetic::div_mod::lemma_fundamental_div_mod_converse;

verus! {

/// Corner `t` of the two triangles of the cell whose first sample is in row
/// `r` and column `c`. With `p = (r, c)`, `q = (r, c + 1)`, `s = (r + 1, c + 1)`
/// and `d = (r + 1, c)` the triangles are `p q s` and `p s d`.
pub open spec fn cell_corner(nc: int, r: int, c: int, t: int) -> int {
    if t == 0 || t == 3 {
        r * nc + c
    } else if t == 1 {
        r * nc + c + 1
    } else if t == 2 || t == 4 {
        (r + 1) * nc + c + 1
    } else {
        (r + 1) * nc + c
    }
}

/// The number of cells of a grid.
pub open spec fn cell_count(nr: int, nc: int) -> int {
    (nr - 1) * (nc - 1)
}

/// The indices of all triangles of a grid: six for each cell, the cells
/// taken row by row.
pub open spec fn grid_indices(nr: int, nc: int) -> Seq<int> {
    Seq::new(
        (6 * cell_count(nr, nc)) as nat,
        |j: int| cell_corner(nc, (j / 6) / (nc - 1), (j / 6) % (nc - 1), j % 6),
    )
}

/// A sequence of indices as mathematical integers.
pub open spec fn index_ints(s: Seq<u32>) -> Seq<int> {
    Seq::new(s.len(), |j: int| s[j] as int)
}

/// Every corner of a cell is a sample of the grid.
pub proof fn lemma_cell_corner_range(nr: int, nc: int, r: int, c: int, t: int)
    requires
        0 <= r < nr - 1,
        0 <= c < nc - 1,
    ensures
        0 <= cell_corner(nc, r, c, t) < nr * nc,
{
    assert(0 <= r * nc && (r + 1) * nc == r * nc + nc && (r + 2) * nc <= nr * nc
        && (r + 2) * nc == r * nc + 2 * nc) by (nonlinear_arith)
        requires
            0 <= r,
            r + 2 <= nr,
            0 < nc,
    ;
}

/// Every index of a grid is a sample of the grid.
pub proof fn lemma_grid_indices_range(nr: int, nc: int, j: int)
    requires
        2 <= nr,
        2 <= nc,
        0 <= j < grid_indices(nr, nc).len(),
    ensures
        0 <= grid_indices(nr, nc)[j] < nr * nc,
{
    let q = j / 6;
    let n = nc - 1;
    assert(0 <= q < (nr - 1) * n);
    assert(0 <= q % n < n);
    assert(0 <= q / n < nr - 1) by (nonlinear_arith)
        requires
            0 <= q < (nr - 1) * n,
            0 < n,
    ;
    lemma_cell_corner_range(nr, nc, q / n, q % n, j % 6);
}

/// The indices of the triangles of a grid of `nr` rows and `nc` columns.
pub fn triangulate(nr: usize, nc: usize) -> (out: Vec<u32>)
    requires
        2 <= nr,
        2 <= nc,
        nr * nc <= u32::MAX,
    ensures
        index_ints(out@) == grid_indices(nr as int, nc as int),
{
    let mut out: Vec<u32> = Vec::new();
    let ghost mut q: int = 0;
    let mut r: usize = 0;
    while r < nr - 1
        invariant
            2 <= nr,
            2 <= nc,
            nr * nc <= u32::MAX,
            r <= nr - 1,
            q == r * (nc - 1),
            out.len() == 6 * q,
            forall|j: int|
                0 <= j < out.len() ==> out[j] as int == cell_corner(
                    nc as int,
                    (j / 6) / (nc - 1),
                    (j / 6) % (nc - 1),
                    j % 6,
                ),
        decreases nr - 1 - r,
    {
        let mut c: usize = 0;
        while c < nc - 1
            invariant
                2 <= nr,
                2 <= nc,
                nr * nc <= u32::MAX,
                r < nr - 1,
                c <= nc - 1,
                q == r * (nc - 1) + c,
                out.len() == 6 * q,
                forall|j: int|
                    0 <= j < out.len() ==> out[j] as int == cell_corner(
                        nc as int,
                        (j / 6) / (nc - 1),
                        (j / 6) % (nc - 1),
                        j % 6,
                    ),
            decreases nc - 1 - c,
        {
            proof {
                lemma_cell_corner_range(nr as int, nc as int, r as int, c as int, 0);
                lemma_cell_corner_range(nr as int, nc as int, r as int, c as int, 2);
                assert((r + 1) * nc == r * nc + nc) by (nonlinear_arith);
                lemma_fundamental_div_mod_converse(q, nc - 1, r as int, c as int);
            }
            let here: usize = r * nc + c;
            let below: usize = here + nc;
            out.push(here as u32);
            out.push((here + 1) as u32);
            out.push((below + 1) as u32);
            out.push(here as u32);
            out.push((below + 1) as u32);
            out.push(below as u32);
            proof {
                q = q + 1;
            }
            c += 1;
        }
        proof {
            assert((r + 1) * (nc - 1) == r * (nc - 1) + (nc - 1)) by (nonlinear_arith);
        }
        r += 1;
    }
    assert(index_ints(out@) =~= grid_indices(nr as int, nc as int));
    out
}

} // verus!
