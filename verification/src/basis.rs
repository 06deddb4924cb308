//! The cubic Bernstein basis and its derivative at the parameters of a
//! uniform grid.
//!
//! A grid of `n + 1` samples has the parameters `t = i / n` for `0 <= i <= n`.
//! At such a parameter each basis polynomial is an integer over `n^3`, and
//! each derivative an integer over `n^2`; the functions here give those
//! integers.

use vstd::prelude::*;

verus! {

/// The `k`-th cubic Bernstein polynomial at `t = i / n`, times `n^3`:
/// `(1-t)^3`, `3(1-t)^2 t`, `3(1-t) t^2`, `t^3` for `k` = 0, 1, 2, 3.
pub open spec fn bernstein(n: int, i: int, k: int) -> int {
    let j = n - i;
    if k == 0 {
        j * j * j
    } else if k == 1 {
        3 * (j * j * i)
    } else if k == 2 {
        3 * (j * i * i)
    } else {
        i * i * i
    }
}

/// The derivative of the `k`-th cubic Bernstein polynomial at `t = i / n`,
/// times `n^2`: `-3(1-t)^2`, `3(1 - 4t + 3t^2)`, `3(2t - 3t^2)`, `3t^2`.
pub open spec fn bernstein_slope(n: int, i: int, k: int) -> int {
    let j = n - i;
    if k == 0 {
        -3 * (j * j)
    } else if k == 1 {
        3 * (n * n - 4 * (n * i) + 3 * (i * i))
    } else if k == 2 {
        3 * (2 * (n * i) - 3 * (i * i))
    } else {
        3 * (i * i)
    }
}

/// The four basis numerators at `t = i / n`.
pub open spec fn bernstein_row(n: int, i: int) -> Seq<int> {
    Seq::new(4, |k: int| bernstein(n, i, k))
}

/// The four derivative numerators at `t = i / n`.
pub open spec fn slope_row(n: int, i: int) -> Seq<int> {
    Seq::new(4, |k: int| bernstein_slope(n, i, k))
}

/// The four basis values sum to one: their numerators sum to `n^3`.
pub proof fn lemma_bernstein_partition(n: int, i: int)
    ensures
        bernstein(n, i, 0) + bernstein(n, i, 1) + bernstein(n, i, 2) + bernstein(n, i, 3)
            == n * n * n,
{
    let j = n - i;
    assert(j * j * j + 3 * (j * j * i) + 3 * (j * i * i) + i * i * i == n * n * n)
        by (nonlinear_arith)
        requires
            j == n - i,
    ;
}

/// The four derivatives sum to zero.
pub proof fn lemma_slope_partition(n: int, i: int)
    ensures
        bernstein_slope(n, i, 0) + bernstein_slope(n, i, 1) + bernstein_slope(n, i, 2)
            + bernstein_slope(n, i, 3) == 0,
{
    let j = n - i;
    assert(j * j == n * n - 2 * (n * i) + i * i) by (nonlinear_arith)
        requires
            j == n - i,
    ;
}

/// Inside the unit interval every basis value lies between zero and one.
pub proof fn lemma_bernstein_range(n: int, i: int, k: int)
    requires
        0 <= i <= n,
        0 <= k < 4,
    ensures
        0 <= bernstein(n, i, k) <= n * n * n,
{
    let j = n - i;
    assert(0 <= j * j * j && 0 <= j * j * i && 0 <= j * i * i && 0 <= i * i * i)
        by (nonlinear_arith)
        requires
            0 <= i,
            0 <= j,
    ;
    lemma_bernstein_partition(n, i);
}

/// Inside the unit interval every derivative lies between minus three and
/// three.
pub proof fn lemma_slope_range(n: int, i: int, k: int)
    requires
        0 <= i <= n,
        0 <= k < 4,
    ensures
        -3 * (n * n) <= bernstein_slope(n, i, k) <= 3 * (n * n),
{
    let j = n - i;
    let nn = n * n;
    let ni = n * i;
    let ii = i * i;
    let jj = j * j;
    assert(0 <= jj <= nn && 0 <= ii <= nn) by (nonlinear_arith)
        requires
            0 <= i <= n,
            j == n - i,
            jj == j * j,
            ii == i * i,
            nn == n * n,
    ;
    // 4ni - 3i^2 = 3(n-i)i + ni and 2n^2 - 4ni + 3i^2 = 2(n-i)^2 + i^2
    assert(0 <= 4 * ni - 3 * ii && 0 <= 2 * nn - 4 * ni + 3 * ii) by (nonlinear_arith)
        requires
            0 <= i <= n,
            ii == i * i,
            ni == n * i,
            nn == n * n,
    ;
    // n^2 - 2ni + 3i^2 = (n-i)^2 + 2i^2 and n^2 + 2ni - 3i^2 = (n-i)(n+3i)
    assert(0 <= nn - 2 * ni + 3 * ii && 0 <= nn + 2 * ni - 3 * ii) by (nonlinear_arith)
        requires
            0 <= i <= n,
            ii == i * i,
            ni == n * i,
            nn == n * n,
    ;
    assert(bernstein_slope(n, i, 0) == -3 * jj);
    assert(bernstein_slope(n, i, 1) == 3 * (nn - 4 * ni + 3 * ii));
    assert(bernstein_slope(n, i, 2) == 3 * (2 * ni - 3 * ii));
    assert(bernstein_slope(n, i, 3) == 3 * ii);
}

/// At `t = 0` the basis is `(1, 0, 0, 0)` and at `t = 1` it is `(0, 0, 0, 1)`.
pub proof fn lemma_bernstein_ends(n: int, k: int)
    requires
        0 <= k < 4,
    ensures
        bernstein(n, 0, k) == if k == 0 { n * n * n } else { 0 },
        bernstein(n, n, k) == if k == 3 { n * n * n } else { 0 },
{
    assert(n * n * 0 == 0 && n * 0 * 0 == 0 && 0 * 0 * 0 == 0 && 0 * 0 * n == 0
        && 0 * n * n == 0) by (nonlinear_arith);
}

/// At `t = 0` the derivatives are `(-3, 3, 0, 0)` and at `t = 1` they are
/// `(0, 0, -3, 3)`: the curve leaves its first control point towards the
/// second and reaches its last from the third.
pub proof fn lemma_slope_ends(n: int, k: int)
    requires
        0 <= k < 4,
    ensures
        bernstein_slope(n, 0, k) == if k == 0 {
            -3 * (n * n)
        } else if k == 1 {
            3 * (n * n)
        } else {
            0
        },
        bernstein_slope(n, n, k) == if k == 2 {
            -3 * (n * n)
        } else if k == 3 {
            3 * (n * n)
        } else {
            0
        },
{
    assert(n * 0 == 0 && 0 * 0 == 0) by (nonlinear_arith);
}

/// The numerators of the cubic Bernstein basis at `t = i / n`, over `n^3`.
pub fn basis(n: u32, i: u32) -> (out: [i128; 4])
    requires
        i <= n,
    ensures
        forall|k: int| 0 <= k < 4 ==> out[k] == bernstein(n as int, i as int, k),
{
    let t: i128 = i as i128;
    let s: i128 = n as i128 - t;
    proof {
        lemma_square_fits(s as int);
        lemma_square_fits(t as int);
        lemma_product_fits(s as int, t as int);
        lemma_cube_fits(s as int, s as int, s as int);
        lemma_cube_fits(s as int, s as int, t as int);
        lemma_cube_fits(s as int, t as int, t as int);
        lemma_cube_fits(t as int, t as int, t as int);
    }
    [s * s * s, 3 * (s * s * t), 3 * (s * t * t), t * t * t]
}

/// The numerators of the derivative of the cubic Bernstein basis at
/// `t = i / n`, over `n^2`.
pub fn basis_slope(n: u32, i: u32) -> (out: [i128; 4])
    requires
        i <= n,
    ensures
        forall|k: int| 0 <= k < 4 ==> out[k] == bernstein_slope(n as int, i as int, k),
{
    let t: i128 = i as i128;
    let m: i128 = n as i128;
    let s: i128 = m - t;
    proof {
        lemma_square_fits(s as int);
        lemma_square_fits(t as int);
        lemma_square_fits(m as int);
        lemma_product_fits(m as int, t as int);
    }
    [
        -3 * (s * s),
        3 * (m * m - 4 * (m * t) + 3 * (t * t)),
        3 * (2 * (m * t) - 3 * (t * t)),
        3 * (t * t),
    ]
}

proof fn lemma_product_fits(a: int, b: int)
    requires
        0 <= a <= u32::MAX,
        0 <= b <= u32::MAX,
    ensures
        0 <= a * b <= 0xffff_fffe_0000_0001,
{
    assert(0 <= a * b <= 0xffff_fffe_0000_0001) by (nonlinear_arith)
        requires
            0 <= a <= 0xffff_ffff,
            0 <= b <= 0xffff_ffff,
    ;
}

proof fn lemma_square_fits(a: int)
    requires
        0 <= a <= u32::MAX,
    ensures
        0 <= a * a <= 0xffff_fffe_0000_0001,
{
    lemma_product_fits(a, a);
}

proof fn lemma_cube_fits(a: int, b: int, c: int)
    requires
        0 <= a <= u32::MAX,
        0 <= b <= u32::MAX,
        0 <= c <= u32::MAX,
    ensures
        0 <= a * b * c <= 0xffff_fffe_0000_0001 * 0xffff_ffff,
{
    lemma_product_fits(a, b);
    let ab = a * b;
    assert(0 <= ab * c <= 0xffff_fffe_0000_0001 * 0xffff_ffff) by (nonlinear_arith)
        requires
            0 <= ab <= 0xffff_fffe_0000_0001,
            0 <= c <= 0xffff_ffff,
    ;
}

} // verus!
