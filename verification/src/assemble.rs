//! The whole teapot: the meshes of its 32 patches, joined in the order of
//! the table.

use vstd::prelude::*;
use vstd::arithmetic::div_mod::lemma_fundamental_div_mod_converse;
use crate::grid::{cell_corner, cell_count, grid_indices};
use crate::mesh::{lemma_joined_wf, Mesh, MeshModel};
use crate::patch::{
    is_patch, lemma_patch_mesh_wf, patch_mesh, patch_view, tesselate_patch, MAX_SAMPLES,
};
use crate::surface::{
    is_grid, lemma_corner, lemma_corners_of_two_by_two, sample_position, sample_tangent_u,
    sample_tangent_v, sample_uv, steps_cubed,
};
use crate::table::{control_points, lemma_table_weight, table_patch, table_point, PATCH_COUNT};
use crate::vertex::{lemma_tangent_determined, lemma_vertex_determined, UNIT};

verus! {

/// Why a grid cannot be sampled.
#[derive(Clone, Copy, Debug, PartialEq, Eq)]
pub enum ResolutionError {
    /// Fewer than two rows or fewer than two columns: no cell, and no step
    /// to divide the parameter range by.
    TooCoarse,
    /// More than [`MAX_SAMPLES`] samples in a patch: the samples of the
    /// teapot could not be numbered with 32 bits.
    TooFine,
}

/// A grid can be sampled if it has at least two rows, at least two columns
/// and at most [`MAX_SAMPLES`] samples.
pub open spec fn resolution_ok(nr: int, nc: int) -> bool {
    2 <= nr && 2 <= nc && nr * nc <= MAX_SAMPLES
}

/// The first `count` patches of the teapot, each sampled on a grid of `nr`
/// rows and `nc` columns, joined in the order of the table.
pub open spec fn teapot_prefix(nr: int, nc: int, count: nat) -> MeshModel
    decreases count,
{
    if count == 0 {
        MeshModel::empty()
    } else {
        teapot_prefix(nr, nc, (count - 1) as nat).joined(
            patch_mesh(table_patch(count - 1), nr, nc),
        )
    }
}

/// The teapot, each patch sampled on a grid of `nr` rows and `nc` columns.
pub open spec fn teapot_mesh(nr: int, nc: int) -> MeshModel {
    teapot_prefix(nr, nc, PATCH_COUNT as nat)
}

/// The first `count` patches have `count` times the samples and the indices
/// of one patch, and every index refers to a sample.
pub proof fn lemma_prefix_counts(nr: int, nc: int, count: nat)
    requires
        2 <= nr,
        2 <= nc,
    ensures
        teapot_prefix(nr, nc, count).wf(),
        teapot_prefix(nr, nc, count).positions.len() == count * (nr * nc),
        teapot_prefix(nr, nc, count).indices.len() == count * (6 * cell_count(nr, nc)),
    decreases count,
{
    if count > 0 {
        let before = teapot_prefix(nr, nc, (count - 1) as nat);
        let patch = patch_mesh(table_patch(count - 1), nr, nc);
        lemma_prefix_counts(nr, nc, (count - 1) as nat);
        lemma_patch_mesh_wf(table_patch(count - 1), nr, nc);
        lemma_joined_wf(before, patch);
        let s = nr * nc;
        let t = 6 * cell_count(nr, nc);
        assert(count * s == (count - 1) * s + s && count * t == (count - 1) * t + t)
            by (nonlinear_arith);
    }
}

/// Among the first `count` patches, sample `i` of patch `q` is sample
/// `q * (nr * nc) + i` of the whole.
pub proof fn lemma_prefix_sample(nr: int, nc: int, count: nat, q: int, i: int)
    requires
        2 <= nr,
        2 <= nc,
        0 <= q < count,
        0 <= i < nr * nc,
    ensures
        0 <= q * (nr * nc) + i < teapot_prefix(nr, nc, count).positions.len(),
        teapot_prefix(nr, nc, count).positions[q * (nr * nc) + i] == patch_mesh(
            table_patch(q),
            nr,
            nc,
        ).positions[i],
        teapot_prefix(nr, nc, count).tangents_u[q * (nr * nc) + i] == patch_mesh(
            table_patch(q),
            nr,
            nc,
        ).tangents_u[i],
        teapot_prefix(nr, nc, count).tangents_v[q * (nr * nc) + i] == patch_mesh(
            table_patch(q),
            nr,
            nc,
        ).tangents_v[i],
        teapot_prefix(nr, nc, count).uvs[q * (nr * nc) + i] == patch_mesh(
            table_patch(q),
            nr,
            nc,
        ).uvs[i],
    decreases count,
{
    let s = nr * nc;
    lemma_prefix_counts(nr, nc, count);
    lemma_prefix_counts(nr, nc, (count - 1) as nat);
    lemma_patch_mesh_wf(table_patch(count - 1), nr, nc);
    assert(count * s == (count - 1) * s + s) by (nonlinear_arith);
    assert(0 <= q * s && (q + 1) * s == q * s + s) by (nonlinear_arith)
        requires
            0 <= q,
            0 <= s,
    ;
    if q < count - 1 {
        lemma_prefix_sample(nr, nc, (count - 1) as nat, q, i);
    }
}

/// Among the first `count` patches, index `j` of patch `q` is index
/// `q * (6 * cells) + j` of the whole, and is moved up by the number of
/// samples of the patches before `q`.
pub proof fn lemma_prefix_index(nr: int, nc: int, count: nat, q: int, j: int)
    requires
        2 <= nr,
        2 <= nc,
        0 <= q < count,
        0 <= j < 6 * cell_count(nr, nc),
    ensures
        0 <= q * (6 * cell_count(nr, nc)) + j < teapot_prefix(nr, nc, count).indices.len(),
        teapot_prefix(nr, nc, count).indices[q * (6 * cell_count(nr, nc)) + j] == q * (nr * nc)
            + grid_indices(nr, nc)[j],
    decreases count,
{
    let s = nr * nc;
    let t = 6 * cell_count(nr, nc);
    lemma_prefix_counts(nr, nc, count);
    lemma_prefix_counts(nr, nc, (count - 1) as nat);
    lemma_patch_mesh_wf(table_patch(count - 1), nr, nc);
    assert(count * s == (count - 1) * s + s && count * t == (count - 1) * t + t)
        by (nonlinear_arith);
    assert(0 <= q * t && (q + 1) * t == q * t + t) by (nonlinear_arith)
        requires
            0 <= q,
            0 <= t,
    ;
    if q < count - 1 {
        lemma_prefix_index(nr, nc, (count - 1) as nat, q, j);
    }
}

/// Every patch of the table is a grid of control points.
pub proof fn lemma_table_is_grid(q: int)
    ensures
        is_grid(table_patch(q)),
{
    let grid = table_patch(q);
    assert forall|a: int, b: int| 0 <= a < 4 && 0 <= b < 4 implies (#[trigger] grid[a][b]).w
        == UNIT by {
        assert(grid[a][b] == table_point(q, a, b));
        lemma_table_weight(q, a, b);
    }
}

/// The teapot has `32 * nr * nc` samples, each with all of its attributes,
/// and `32 * 6 * (nr - 1) * (nc - 1)` indices, each of which refers to one
/// of its samples.
pub proof fn lemma_teapot_counts(nr: int, nc: int)
    requires
        2 <= nr,
        2 <= nc,
    ensures
        teapot_mesh(nr, nc).positions.len() == 32 * (nr * nc),
        teapot_mesh(nr, nc).tangents_u.len() == 32 * (nr * nc),
        teapot_mesh(nr, nc).tangents_v.len() == 32 * (nr * nc),
        teapot_mesh(nr, nc).uvs.len() == 32 * (nr * nc),
        teapot_mesh(nr, nc).indices.len() == 32 * (6 * ((nr - 1) * (nc - 1))),
        forall|j: int|
            0 <= j < teapot_mesh(nr, nc).indices.len() ==> 0 <= #[trigger] teapot_mesh(
                nr,
                nc,
            ).indices[j] < teapot_mesh(nr, nc).positions.len(),
{
    lemma_prefix_counts(nr, nc, PATCH_COUNT as nat);
}

/// The sample in row `r` and column `c` of patch `q` is sample
/// `q * (nr * nc) + r * nc + c` of the teapot. Its position and its tangents
/// are those of the surface of patch `q` at `u = c / (nc - 1)` and
/// `v = r / (nr - 1)`, and its texture coordinate is `(u, v)`.
pub proof fn lemma_teapot_sample(nr: int, nc: int, q: int, r: int, c: int)
    requires
        resolution_ok(nr, nc),
        0 <= q < 32,
        0 <= r < nr,
        0 <= c < nc,
    ensures
        0 <= q * (nr * nc) + r * nc + c < teapot_mesh(nr, nc).positions.len(),
        teapot_mesh(nr, nc).positions[q * (nr * nc) + r * nc + c] == sample_position(
            table_patch(q),
            nr,
            nc,
            r,
            c,
        ),
        teapot_mesh(nr, nc).tangents_u[q * (nr * nc) + r * nc + c] == sample_tangent_u(
            table_patch(q),
            nr,
            nc,
            r,
            c,
        ),
        teapot_mesh(nr, nc).tangents_v[q * (nr * nc) + r * nc + c] == sample_tangent_v(
            table_patch(q),
            nr,
            nc,
            r,
            c,
        ),
        teapot_mesh(nr, nc).uvs[q * (nr * nc) + r * nc + c] == sample_uv(nr, nc, r, c),
        sample_uv(nr, nc, r, c).u.num == c,
        sample_uv(nr, nc, r, c).u.den == nc - 1,
        sample_uv(nr, nc, r, c).v.num == r,
        sample_uv(nr, nc, r, c).v.den == nr - 1,
{
    let i = r * nc + c;
    assert(0 <= r * nc && r * nc + nc <= nr * nc && nr <= nr * nc && nc <= nr * nc)
        by (nonlinear_arith)
        requires
            0 <= r < nr,
            0 < nc,
    ;
    lemma_fundamental_div_mod_converse(i, nc, r, c);
    lemma_prefix_sample(nr, nc, PATCH_COUNT as nat, q, i);
}

/// Corner `t` of the two triangles of the cell in row `r` and column `c` of
/// patch `q` is index `6 * (q * cells + r * (nc - 1) + c) + t` of the teapot,
/// and refers to that corner among the samples of patch `q`.
pub proof fn lemma_teapot_triangle(nr: int, nc: int, q: int, r: int, c: int, t: int)
    requires
        2 <= nr,
        2 <= nc,
        0 <= q < 32,
        0 <= r < nr - 1,
        0 <= c < nc - 1,
        0 <= t < 6,
    ensures
        0 <= q * (6 * cell_count(nr, nc)) + 6 * (r * (nc - 1) + c) + t < teapot_mesh(
            nr,
            nc,
        ).indices.len(),
        teapot_mesh(nr, nc).indices[q * (6 * cell_count(nr, nc)) + 6 * (r * (nc - 1) + c) + t]
            == q * (nr * nc) + cell_corner(nc, r, c, t),
{
    let n = nc - 1;
    let cell = r * n + c;
    let j = 6 * cell + t;
    assert(0 <= r * n && r * n + n <= (nr - 1) * n) by (nonlinear_arith)
        requires
            0 <= r < nr - 1,
            0 < n,
    ;
    lemma_fundamental_div_mod_converse(cell, n, r, c);
    assert(j / 6 == cell && j % 6 == t);
    lemma_prefix_index(nr, nc, PATCH_COUNT as nat, q, j);
}

/// Each patch of the teapot passes through its four corner control points:
/// the first sample of its first row is control point 0 of row 0, the last
/// sample of its first row is control point 3 of row 0, the first sample of
/// its last row is control point 0 of row 3 and its last sample is control
/// point 3 of row 3. The sample holds the control point with every component
/// multiplied by [`steps_cubed`], which is the same point.
pub proof fn lemma_teapot_corners(nr: int, nc: int, q: int)
    requires
        resolution_ok(nr, nc),
        0 <= q < 32,
    ensures
        1 <= steps_cubed(nr, nc),
        teapot_mesh(nr, nc).positions[q * (nr * nc)] == table_point(q, 0, 0).scaled(
            steps_cubed(nr, nc),
        ),
        teapot_mesh(nr, nc).positions[q * (nr * nc) + (nc - 1)] == table_point(q, 0, 3).scaled(
            steps_cubed(nr, nc),
        ),
        teapot_mesh(nr, nc).positions[q * (nr * nc) + (nr - 1) * nc] == table_point(
            q,
            3,
            0,
        ).scaled(steps_cubed(nr, nc)),
        teapot_mesh(nr, nc).positions[q * (nr * nc) + (nr - 1) * nc + (nc - 1)] == table_point(
            q,
            3,
            3,
        ).scaled(steps_cubed(nr, nc)),
        teapot_mesh(nr, nc).positions[q * (nr * nc)].same_as(table_point(q, 0, 0)),
        teapot_mesh(nr, nc).positions[q * (nr * nc) + (nc - 1)].same_as(table_point(q, 0, 3)),
        teapot_mesh(nr, nc).positions[q * (nr * nc) + (nr - 1) * nc].same_as(
            table_point(q, 3, 0),
        ),
        teapot_mesh(nr, nc).positions[q * (nr * nc) + (nr - 1) * nc + (nc - 1)].same_as(
            table_point(q, 3, 3),
        ),
{
    let grid = table_patch(q);
    lemma_table_is_grid(q);
    assert(0 * nc == 0) by (nonlinear_arith);
    lemma_teapot_sample(nr, nc, q, 0, 0);
    lemma_teapot_sample(nr, nc, q, 0, nc - 1);
    lemma_teapot_sample(nr, nc, q, nr - 1, 0);
    lemma_teapot_sample(nr, nc, q, nr - 1, nc - 1);
    lemma_corner(grid, nr, nc, 0, 0, 0, 0);
    lemma_corner(grid, nr, nc, 0, nc - 1, 0, 3);
    lemma_corner(grid, nr, nc, nr - 1, 0, 3, 0);
    lemma_corner(grid, nr, nc, nr - 1, nc - 1, 3, 3);
    assert(grid[0][0] == table_point(q, 0, 0));
    assert(grid[0][3] == table_point(q, 0, 3));
    assert(grid[3][0] == table_point(q, 3, 0));
    assert(grid[3][3] == table_point(q, 3, 3));
}

/// With two rows and two columns the four samples of each patch are its four
/// corner control points themselves.
pub proof fn lemma_teapot_corners_of_two_by_two(q: int)
    requires
        0 <= q < 32,
    ensures
        teapot_mesh(2, 2).positions[4 * q] == table_point(q, 0, 0),
        teapot_mesh(2, 2).positions[4 * q + 1] == table_point(q, 0, 3),
        teapot_mesh(2, 2).positions[4 * q + 2] == table_point(q, 3, 0),
        teapot_mesh(2, 2).positions[4 * q + 3] == table_point(q, 3, 3),
{
    let grid = table_patch(q);
    lemma_table_is_grid(q);
    lemma_teapot_sample(2, 2, q, 0, 0);
    lemma_teapot_sample(2, 2, q, 0, 1);
    lemma_teapot_sample(2, 2, q, 1, 0);
    lemma_teapot_sample(2, 2, q, 1, 1);
    lemma_corners_of_two_by_two(grid);
    assert(grid[0][0] == table_point(q, 0, 0));
    assert(grid[0][3] == table_point(q, 0, 3));
    assert(grid[3][0] == table_point(q, 3, 0));
    assert(grid[3][3] == table_point(q, 3, 3));
}

/// Two meshes of the teapot at the same resolution hold the same values in
/// the same order.
pub proof fn lemma_same_resolution_same_mesh(a: Mesh, b: Mesh, nr: int, nc: int)
    requires
        a@ == teapot_mesh(nr, nc),
        b@ == teapot_mesh(nr, nc),
    ensures
        a.positions@ == b.positions@,
        a.tangents_u@ == b.tangents_u@,
        a.tangents_v@ == b.tangents_v@,
        a.uvs@ == b.uvs@,
        a.indices@ == b.indices@,
{
    assert(a@.positions.len() == a.positions@.len());
    assert(b@.positions.len() == b.positions@.len());
    assert forall|i: int| 0 <= i < a.positions@.len() implies a.positions@[i] == b.positions@[i] by {
        assert(a@.positions[i] == a.positions@[i]@);
        assert(b@.positions[i] == b.positions@[i]@);
        lemma_vertex_determined(a.positions@[i], b.positions@[i]);
    }
    assert(a.positions@ =~= b.positions@);
    assert(a@.tangents_u.len() == a.tangents_u@.len());
    assert(b@.tangents_u.len() == b.tangents_u@.len());
    assert forall|i: int| 0 <= i < a.tangents_u@.len() implies a.tangents_u@[i]
        == b.tangents_u@[i] by {
        assert(a@.tangents_u[i] == a.tangents_u@[i]@);
        assert(b@.tangents_u[i] == b.tangents_u@[i]@);
        lemma_tangent_determined(a.tangents_u@[i], b.tangents_u@[i]);
    }
    assert(a.tangents_u@ =~= b.tangents_u@);
    assert(a@.tangents_v.len() == a.tangents_v@.len());
    assert(b@.tangents_v.len() == b.tangents_v@.len());
    assert forall|i: int| 0 <= i < a.tangents_v@.len() implies a.tangents_v@[i]
        == b.tangents_v@[i] by {
        assert(a@.tangents_v[i] == a.tangents_v@[i]@);
        assert(b@.tangents_v[i] == b.tangents_v@[i]@);
        lemma_tangent_determined(a.tangents_v@[i], b.tangents_v@[i]);
    }
    assert(a.tangents_v@ =~= b.tangents_v@);
    assert(a@.indices.len() == a.indices@.len());
    assert(b@.indices.len() == b.indices@.len());
    assert forall|j: int| 0 <= j < a.indices@.len() implies a.indices@[j] == b.indices@[j] by {
        assert(a@.indices[j] == a.indices@[j] as int);
        assert(b@.indices[j] == b.indices@[j] as int);
    }
    assert(a.indices@ =~= b.indices@);
}

/// Whether `nr` rows and `nc` columns can be sampled.
pub fn check_resolution(nr: usize, nc: usize) -> (out: Result<(), ResolutionError>)
    ensures
        out is Ok <==> resolution_ok(nr as int, nc as int),
        out == Err::<(), ResolutionError>(ResolutionError::TooCoarse) <==> nr < 2 || nc < 2,
        out == Err::<(), ResolutionError>(ResolutionError::TooFine) <==> 2 <= nr && 2 <= nc && nr
            * nc > MAX_SAMPLES,
{
    if nr < 2 || nc < 2 {
        return Err(ResolutionError::TooCoarse);
    }
    if nr > MAX_SAMPLES || nc > MAX_SAMPLES {
        assert(nr * nc > MAX_SAMPLES) by (nonlinear_arith)
            requires
                2 <= nr,
                2 <= nc,
                nr > MAX_SAMPLES || nc > MAX_SAMPLES,
        ;
        return Err(ResolutionError::TooFine);
    }
    assert(nr * nc <= 0x800_0000 * 0x800_0000) by (nonlinear_arith)
        requires
            nr <= 0x800_0000,
            nc <= 0x800_0000,
    ;
    if nr as u64 * nc as u64 > MAX_SAMPLES as u64 {
        return Err(ResolutionError::TooFine);
    }
    Ok(())
}

/// The mesh of the teapot, each of its 32 patches sampled on a grid of `nr`
/// rows and `nc` columns.
pub fn create_vertices(nr: usize, nc: usize) -> (out: Result<Mesh, ResolutionError>)
    ensures
        out is Ok <==> resolution_ok(nr as int, nc as int),
        match out {
            Ok(mesh) => {
                &&& resolution_ok(nr as int, nc as int)
                &&& mesh@ == teapot_mesh(nr as int, nc as int)
                &&& mesh.wf()
                &&& mesh.positions.len() == 32 * (nr * nc)
                &&& mesh.indices.len() == 32 * (6 * ((nr - 1) * (nc - 1)))
            },
            Err(ResolutionError::TooCoarse) => nr < 2 || nc < 2,
            Err(ResolutionError::TooFine) => 2 <= nr && 2 <= nc && nr * nc > MAX_SAMPLES,
        },
{
    match check_resolution(nr, nc) {
        Err(e) => {
            return Err(e);
        },
        Ok(()) => {},
    }
    let cpts = control_points();
    let mut mesh = Mesh::new();
    let mut i: usize = 0;
    while i < PATCH_COUNT
        invariant
            resolution_ok(nr as int, nc as int),
            cpts.len() == PATCH_COUNT,
            forall|p: int| 0 <= p < PATCH_COUNT ==> is_patch(#[trigger] cpts[p]),
            forall|p: int|
                0 <= p < PATCH_COUNT ==> patch_view(#[trigger] cpts[p]) == table_patch(p),
            i <= PATCH_COUNT,
            mesh@ == teapot_prefix(nr as int, nc as int, i as nat),
        decreases PATCH_COUNT - i,
    {
        let patch = tesselate_patch(&cpts[i], nr, nc);
        proof {
            lemma_prefix_counts(nr as int, nc as int, i as nat);
            lemma_patch_mesh_wf(table_patch(i as int), nr as int, nc as int);
            let s = nr * nc;
            assert(i * s + s <= 32 * s) by (nonlinear_arith)
                requires
                    i < 32,
                    0 <= s,
            ;
        }
        mesh.append(patch);
        i += 1;
    }
    proof {
        lemma_prefix_counts(nr as int, nc as int, PATCH_COUNT as nat);
    }
    Ok(mesh)
}

} // verus!
