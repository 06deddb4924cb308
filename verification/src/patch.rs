//! One patch of control points, sampled on a uniform grid and covered with
//! triangles.

use vstd::prelude::*;
use vstd::arithmetic::div_mod::lemma_fundamental_div_mod_converse;
use crate::basis::{
    basis, basis_slope, bernstein_row, lemma_bernstein_range, lemma_slope_range, slope_row,
};
use crate::grid::{grid_indices, lemma_grid_indices_range, triangulate};
use crate::mesh::{Mesh, MeshModel};
use crate::surface::{
    blend, is_grid, sample_position, sample_tangent_u, sample_tangent_v, sample_uv, weight,
};
use crate::vertex::{Fraction, Point, Tangent, Uv, Vertex, UNIT};

verus! {

/// The most samples that a grid may have. With it the 32 patches of the
/// teapot have at most `u32::MAX` samples together.
pub const MAX_SAMPLES: usize = 134_217_727;

/// The largest weight of a control point that [`blend3`] sums without
/// overflow: `9 * 2^81`.
pub const WEIGHT_LIMIT: i128 = 0x12_0000_0000_0000_0000_0000;

/// The largest term of such a sum: [`WEIGHT_LIMIT`] times `2^31`.
pub const TERM_LIMIT: i128 = 0x9_0000_0000_0000_0000_0000_0000_0000;

/// A patch is four rows of four control points.
pub open spec fn is_patch(cpts: Vec<Vec<Vertex>>) -> bool {
    &&& cpts.len() == 4
    &&& forall|a: int| 0 <= a < 4 ==> (#[trigger] cpts[a]).len() == 4
    &&& forall|a: int, b: int| 0 <= a < 4 && 0 <= b < 4 ==> (#[trigger] cpts[a][b]).is_control_point()
}

/// The control points of a patch as points, row by row.
pub open spec fn patch_view(cpts: Vec<Vec<Vertex>>) -> Seq<Seq<Point>> {
    Seq::new(cpts.len() as nat, |a: int| Seq::new(cpts[a].len() as nat, |b: int| cpts[a][b]@))
}

/// The control points of a patch form a grid.
pub proof fn lemma_patch_view_is_grid(cpts: Vec<Vec<Vertex>>)
    requires
        is_patch(cpts),
    ensures
        is_grid(patch_view(cpts)),
{
    let grid = patch_view(cpts);
    assert forall|a: int, b: int| 0 <= a < 4 && 0 <= b < 4 implies (#[trigger] grid[a][b]).w
        == UNIT by {
        assert(cpts[a][b].is_control_point());
    }
}

/// Four machine integers as mathematical ones.
pub open spec fn ints(w: [i128; 4]) -> Seq<int> {
    Seq::new(4, |k: int| w[k] as int)
}

/// The mesh of one patch: its samples row by row, and the triangles of the
/// grid. Sample `i` is in row `i / nc` and column `i % nc`.
pub open spec fn patch_mesh(grid: Seq<Seq<Point>>, nr: int, nc: int) -> MeshModel {
    MeshModel {
        positions: Seq::new(
            (nr * nc) as nat,
            |i: int| sample_position(grid, nr, nc, i / nc, i % nc),
        ),
        tangents_u: Seq::new(
            (nr * nc) as nat,
            |i: int| sample_tangent_u(grid, nr, nc, i / nc, i % nc),
        ),
        tangents_v: Seq::new(
            (nr * nc) as nat,
            |i: int| sample_tangent_v(grid, nr, nc, i / nc, i % nc),
        ),
        uvs: Seq::new((nr * nc) as nat, |i: int| sample_uv(nr, nc, i / nc, i % nc)),
        indices: grid_indices(nr, nc),
    }
}

/// The mesh of a patch is well formed.
pub proof fn lemma_patch_mesh_wf(grid: Seq<Seq<Point>>, nr: int, nc: int)
    requires
        2 <= nr,
        2 <= nc,
    ensures
        patch_mesh(grid, nr, nc).wf(),
        patch_mesh(grid, nr, nc).positions.len() == nr * nc,
        patch_mesh(grid, nr, nc).indices.len() == 6 * ((nr - 1) * (nc - 1)),
{
    let mesh = patch_mesh(grid, nr, nc);
    assert(0 <= nr * nc && 0 <= (nr - 1) * (nc - 1)) by (nonlinear_arith)
        requires
            2 <= nr,
            2 <= nc,
    ;
    assert forall|j: int| 0 <= j < mesh.indices.len() implies 0 <= #[trigger] mesh.indices[j]
        < mesh.positions.len() by {
        lemma_grid_indices_range(nr, nc, j);
    }
}

/// The weighted sums of the coordinates `x`, `y` and `z` over a patch.
pub fn blend3(wv: &[i128; 4], wu: &[i128; 4], cpts: &Vec<Vec<Vertex>>) -> (out: [i128; 3])
    requires
        is_patch(*cpts),
        forall|a: int, b: int|
            0 <= a < 4 && 0 <= b < 4 ==> -WEIGHT_LIMIT <= #[trigger] weight(
                ints(*wv),
                ints(*wu),
                a,
                b,
            ) <= WEIGHT_LIMIT,
    ensures
        forall|k: int|
            0 <= k < 3 ==> out[k] == blend(ints(*wv), ints(*wu), patch_view(*cpts), k, 16),
{
    let ghost gv = ints(*wv);
    let ghost gu = ints(*wu);
    let ghost grid = patch_view(*cpts);
    let mut x: i128 = 0;
    let mut y: i128 = 0;
    let mut z: i128 = 0;
    let mut a: usize = 0;
    while a < 4
        invariant
            a <= 4,
            is_patch(*cpts),
            gv == ints(*wv),
            gu == ints(*wu),
            grid == patch_view(*cpts),
            forall|a: int, b: int|
                0 <= a < 4 && 0 <= b < 4 ==> -WEIGHT_LIMIT <= #[trigger] weight(gv, gu, a, b)
                    <= WEIGHT_LIMIT,
            x == blend(gv, gu, grid, 0, (4 * a) as nat),
            y == blend(gv, gu, grid, 1, (4 * a) as nat),
            z == blend(gv, gu, grid, 2, (4 * a) as nat),
            -(4 * a) * TERM_LIMIT <= x <= (4 * a) * TERM_LIMIT,
            -(4 * a) * TERM_LIMIT <= y <= (4 * a) * TERM_LIMIT,
            -(4 * a) * TERM_LIMIT <= z <= (4 * a) * TERM_LIMIT,
        decreases 4 - a,
    {
        let mut b: usize = 0;
        while b < 4
            invariant
                a < 4,
                b <= 4,
                is_patch(*cpts),
                gv == ints(*wv),
                gu == ints(*wu),
                grid == patch_view(*cpts),
                forall|a: int, b: int|
                    0 <= a < 4 && 0 <= b < 4 ==> -WEIGHT_LIMIT <= #[trigger] weight(gv, gu, a, b)
                        <= WEIGHT_LIMIT,
                x == blend(gv, gu, grid, 0, (4 * a + b) as nat),
                y == blend(gv, gu, grid, 1, (4 * a + b) as nat),
                z == blend(gv, gu, grid, 2, (4 * a + b) as nat),
                -(4 * a + b) * TERM_LIMIT <= x <= (4 * a + b) * TERM_LIMIT,
                -(4 * a + b) * TERM_LIMIT <= y <= (4 * a + b) * TERM_LIMIT,
                -(4 * a + b) * TERM_LIMIT <= z <= (4 * a + b) * TERM_LIMIT,
            decreases 4 - b,
        {
            let cp: Vertex = cpts[a][b];
            proof {
                assert(cp.is_control_point());
                assert(grid[a as int][b as int] == cp@);
                assert(wv[a as int] * wu[b as int] == weight(gv, gu, a as int, b as int));
                lemma_term_fits(weight(gv, gu, a as int, b as int), cp._pos[0] as int);
                lemma_term_fits(weight(gv, gu, a as int, b as int), cp._pos[1] as int);
                lemma_term_fits(weight(gv, gu, a as int, b as int), cp._pos[2] as int);
            }
            let w: i128 = wv[a] * wu[b];
            x = x + w * cp._pos[0];
            y = y + w * cp._pos[1];
            z = z + w * cp._pos[2];
            b += 1;
        }
        a += 1;
    }
    [x, y, z]
}

/// Samples the patch `cpts` on a grid of `nr` rows and `nc` columns and
/// covers the grid with triangles.
pub fn tesselate_patch(cpts: &Vec<Vec<Vertex>>, nr: usize, nc: usize) -> (out: Mesh)
    requires
        is_patch(*cpts),
        2 <= nr,
        2 <= nc,
        nr * nc <= MAX_SAMPLES,
    ensures
        out@ == patch_mesh(patch_view(*cpts), nr as int, nc as int),
        out.wf(),
{
    let ghost grid = patch_view(*cpts);
    let m: u32 = (nr - 1) as u32;
    let n: u32 = (nc - 1) as u32;
    proof {
        lemma_steps_fit(nr as int, nc as int);
        lemma_cubes_fit(m as int, n as int);
        lemma_cube_fits(m as int);
        lemma_cube_fits(n as int);
    }
    let m1: i128 = m as i128;
    let n1: i128 = n as i128;
    let m2: i128 = m1 * m1;
    let n2: i128 = n1 * n1;
    let m3: i128 = m2 * m1;
    let n3: i128 = n2 * n1;
    let scale: i128 = UNIT * (m3 * n3);
    let scale_u: i128 = UNIT * (m3 * n2);
    let scale_v: i128 = UNIT * (m2 * n3);

    let mut positions: Vec<Vertex> = Vec::new();
    let mut tangents_u: Vec<Tangent> = Vec::new();
    let mut tangents_v: Vec<Tangent> = Vec::new();
    let mut uvs: Vec<Uv> = Vec::new();
    let mut r: usize = 0;
    while r < nr
        invariant
            is_patch(*cpts),
            grid == patch_view(*cpts),
            2 <= nr,
            2 <= nc,
            nr * nc <= MAX_SAMPLES,
            m == nr - 1,
            n == nc - 1,
            scale == UNIT * ((m * m * m) * (n * n * n)),
            scale_u == UNIT * ((m * m * m) * (n * n)),
            scale_v == UNIT * ((m * m) * (n * n * n)),
            r <= nr,
            positions.len() == r * nc,
            tangents_u.len() == r * nc,
            tangents_v.len() == r * nc,
            uvs.len() == r * nc,
            forall|i: int|
                0 <= i < r * nc ==> (#[trigger] positions[i])@ == sample_position(
                    grid,
                    nr as int,
                    nc as int,
                    i / (nc as int),
                    i % (nc as int),
                ),
            forall|i: int|
                0 <= i < r * nc ==> (#[trigger] tangents_u[i])@ == sample_tangent_u(
                    grid,
                    nr as int,
                    nc as int,
                    i / (nc as int),
                    i % (nc as int),
                ),
            forall|i: int|
                0 <= i < r * nc ==> (#[trigger] tangents_v[i])@ == sample_tangent_v(
                    grid,
                    nr as int,
                    nc as int,
                    i / (nc as int),
                    i % (nc as int),
                ),
            forall|i: int|
                0 <= i < r * nc ==> #[trigger] uvs[i] == sample_uv(
                    nr as int,
                    nc as int,
                    i / (nc as int),
                    i % (nc as int),
                ),
        decreases nr - r,
    {
        let vp: [i128; 4] = basis(m, r as u32);
        let dv: [i128; 4] = basis_slope(m, r as u32);
        proof {
            lemma_steps_fit(nr as int, nc as int);
            assert(ints(vp) =~= bernstein_row(m as int, r as int));
            assert(ints(dv) =~= slope_row(m as int, r as int));
        }
        let mut c: usize = 0;
        while c < nc
            invariant
                is_patch(*cpts),
                grid == patch_view(*cpts),
                2 <= nr,
                2 <= nc,
                nr * nc <= MAX_SAMPLES,
                m == nr - 1,
                n == nc - 1,
                scale == UNIT * ((m * m * m) * (n * n * n)),
                scale_u == UNIT * ((m * m * m) * (n * n)),
                scale_v == UNIT * ((m * m) * (n * n * n)),
                r < nr,
                c <= nc,
                1 <= m,
                1 <= n,
                m * n <= MAX_SAMPLES,
                ints(vp) == bernstein_row(m as int, r as int),
                ints(dv) == slope_row(m as int, r as int),
                positions.len() == r * nc + c,
                tangents_u.len() == r * nc + c,
                tangents_v.len() == r * nc + c,
                uvs.len() == r * nc + c,
                forall|i: int|
                    0 <= i < r * nc + c ==> (#[trigger] positions[i])@ == sample_position(
                        grid,
                        nr as int,
                        nc as int,
                        i / (nc as int),
                        i % (nc as int),
                    ),
                forall|i: int|
                    0 <= i < r * nc + c ==> (#[trigger] tangents_u[i])@ == sample_tangent_u(
                        grid,
                        nr as int,
                        nc as int,
                        i / (nc as int),
                        i % (nc as int),
                    ),
                forall|i: int|
                    0 <= i < r * nc + c ==> (#[trigger] tangents_v[i])@ == sample_tangent_v(
                        grid,
                        nr as int,
                        nc as int,
                        i / (nc as int),
                        i % (nc as int),
                    ),
                forall|i: int|
                    0 <= i < r * nc + c ==> #[trigger] uvs[i] == sample_uv(
                        nr as int,
                        nc as int,
                        i / (nc as int),
                        i % (nc as int),
                    ),
            decreases nc - c,
        {
            let up: [i128; 4] = basis(n, c as u32);
            let du: [i128; 4] = basis_slope(n, c as u32);
            proof {
                assert(ints(up) =~= bernstein_row(n as int, c as int));
                assert(ints(du) =~= slope_row(n as int, c as int));
                lemma_rows_fit(m as int, r as int);
                lemma_rows_fit(n as int, c as int);
                lemma_weights_fit(m as int, n as int, ints(vp), ints(up));
                lemma_weights_fit(m as int, n as int, ints(vp), ints(du));
                lemma_weights_fit(m as int, n as int, ints(dv), ints(up));
                lemma_fundamental_div_mod_converse(r * nc + c, nc as int, r as int, c as int);
            }
            let pt: [i128; 3] = blend3(&vp, &up, cpts);
            let tan1: [i128; 3] = blend3(&vp, &du, cpts);
            let tan2: [i128; 3] = blend3(&dv, &up, cpts);
            positions.push(Vertex { _pos: [pt[0], pt[1], pt[2], scale] });
            tangents_u.push(Tangent { dir: tan1, scale: scale_u });
            tangents_v.push(Tangent { dir: tan2, scale: scale_v });
            uvs.push(Uv { u: Fraction { num: c as u32, den: n }, v: Fraction { num: r as u32, den: m } });
            c += 1;
        }
        proof {
            assert((r + 1) * nc == r * nc + nc) by (nonlinear_arith);
        }
        r += 1;
    }
    let indices: Vec<u32> = triangulate(nr, nc);
    let out = Mesh { positions, tangents_u, tangents_v, uvs, indices };
    proof {
        let model = patch_mesh(grid, nr as int, nc as int);
        assert(out@.positions =~= model.positions);
        assert(out@.tangents_u =~= model.tangents_u);
        assert(out@.tangents_v =~= model.tangents_v);
        assert(out@.uvs =~= model.uvs);
        lemma_patch_mesh_wf(grid, nr as int, nc as int);
    }
    out
}

/// A weight within [`WEIGHT_LIMIT`] times a coordinate of 32 bits is within
/// [`TERM_LIMIT`].
proof fn lemma_term_fits(w: int, c: int)
    requires
        -WEIGHT_LIMIT <= w <= WEIGHT_LIMIT,
        i32::MIN <= c <= i32::MAX,
    ensures
        -TERM_LIMIT <= w * c <= TERM_LIMIT,
{
    assert(-TERM_LIMIT <= w * c <= TERM_LIMIT) by (nonlinear_arith)
        requires
            -WEIGHT_LIMIT <= w <= WEIGHT_LIMIT,
            -0x8000_0000 <= c <= 0x8000_0000,
    ;
}

/// Every basis value and every derivative at `t = i / n` is at most
/// `3 * n^3` in size.
proof fn lemma_rows_fit(n: int, i: int)
    requires
        1 <= n,
        0 <= i <= n,
    ensures
        forall|k: int|
            0 <= k < 4 ==> -3 * (n * n * n) <= #[trigger] bernstein_row(n, i)[k] <= 3 * (n * n * n),
        forall|k: int|
            0 <= k < 4 ==> -3 * (n * n * n) <= #[trigger] slope_row(n, i)[k] <= 3 * (n * n * n),
{
    assert(1 <= n * n <= n * n * n) by (nonlinear_arith)
        requires
            1 <= n,
    ;
    assert forall|k: int| 0 <= k < 4 implies -3 * (n * n * n) <= #[trigger] bernstein_row(n, i)[k]
        <= 3 * (n * n * n) by {
        lemma_bernstein_range(n, i, k);
    }
    assert forall|k: int| 0 <= k < 4 implies -3 * (n * n * n) <= #[trigger] slope_row(n, i)[k] <= 3
        * (n * n * n) by {
        lemma_slope_range(n, i, k);
    }
}

/// Row weights of at most `3 * m^3` and column weights of at most `3 * n^3`
/// give products within [`WEIGHT_LIMIT`].
proof fn lemma_weights_fit(m: int, n: int, wv: Seq<int>, wu: Seq<int>)
    requires
        1 <= m,
        1 <= n,
        m * n <= MAX_SAMPLES,
        forall|a: int| 0 <= a < 4 ==> -3 * (m * m * m) <= #[trigger] wv[a] <= 3 * (m * m * m),
        forall|b: int| 0 <= b < 4 ==> -3 * (n * n * n) <= #[trigger] wu[b] <= 3 * (n * n * n),
    ensures
        forall|a: int, b: int|
            0 <= a < 4 && 0 <= b < 4 ==> -WEIGHT_LIMIT <= #[trigger] weight(wv, wu, a, b)
                <= WEIGHT_LIMIT,
{
    let m3 = m * m * m;
    let n3 = n * n * n;
    lemma_cubes_fit(m, n);
    assert forall|a: int, b: int| 0 <= a < 4 && 0 <= b < 4 implies -WEIGHT_LIMIT
        <= #[trigger] weight(wv, wu, a, b) <= WEIGHT_LIMIT by {
        let x = wv[a];
        let y = wu[b];
        assert(-9 * (m3 * n3) <= x * y <= 9 * (m3 * n3)) by (nonlinear_arith)
            requires
                -3 * m3 <= x <= 3 * m3,
                -3 * n3 <= y <= 3 * n3,
        ;
    }
}

/// A grid has fewer steps than samples along each side, and in all.
proof fn lemma_steps_fit(nr: int, nc: int)
    requires
        2 <= nr,
        2 <= nc,
        nr * nc <= MAX_SAMPLES,
    ensures
        nr - 1 < MAX_SAMPLES,
        nc - 1 < MAX_SAMPLES,
        (nr - 1) * (nc - 1) <= MAX_SAMPLES,
{
    assert(nr <= nr * nc && nc <= nr * nc && (nr - 1) * (nc - 1) <= nr * nc) by (nonlinear_arith)
        requires
            1 <= nr,
            1 <= nc,
    ;
}

/// The cube of a number below `2^27` is below `2^81`.
proof fn lemma_cube_fits(m: int)
    requires
        0 <= m <= MAX_SAMPLES,
    ensures
        0 <= m * m <= 0x40_0000_0000_0000,
        0 <= m * m * m <= 0x2_0000_0000_0000_0000_0000,
{
    assert(0 <= m * m <= 0x40_0000_0000_0000 && 0 <= m * m * m <= 0x2_0000_0000_0000_0000_0000)
        by (nonlinear_arith)
        requires
            0 <= m <= 0x800_0000,
    ;
}

/// For `m * n` below `2^27` the product of the cubes is below `2^81`.
proof fn lemma_cubes_fit(m: int, n: int)
    requires
        1 <= m,
        1 <= n,
        m * n <= MAX_SAMPLES,
    ensures
        1 <= m * m <= m * m * m,
        1 <= n * n <= n * n * n,
        (m * m * m) * (n * n * n) <= 0x2_0000_0000_0000_0000_0000,
        (m * m * m) * (n * n) <= 0x2_0000_0000_0000_0000_0000,
        (m * m) * (n * n * n) <= 0x2_0000_0000_0000_0000_0000,
{
    let q = m * n;
    assert(1 <= m * m <= m * m * m && 1 <= n * n <= n * n * n) by (nonlinear_arith)
        requires
            1 <= m,
            1 <= n,
    ;
    assert((m * m * m) * (n * n * n) == q * q * q) by (nonlinear_arith)
        requires
            q == m * n,
    ;
    assert(q * q * q <= 0x2_0000_0000_0000_0000_0000) by (nonlinear_arith)
        requires
            0 <= q <= 0x800_0000,
    ;
    let m2 = m * m;
    let m3 = m * m * m;
    let n2 = n * n;
    let n3 = n * n * n;
    assert(m3 * n2 <= m3 * n3 && m2 * n3 <= m3 * n3) by (nonlinear_arith)
        requires
            1 <= m2 <= m3,
            1 <= n2 <= n3,
    ;
}

} // verus!
