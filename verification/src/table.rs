//! The control points of the teapot.
//!
//! The teapot is made of 32 bicubic patches, each a grid of four rows of
//! four control points. Coordinates are written in units of `1 / UNIT`, so
//! that `140000` is 1.4.

use vstd::prelude::*;
use crate::patch::{is_patch, patch_view};
use crate::vertex::{vtx, Point, Vertex, UNIT};

verus! {

/// The number of patches.
pub const PATCH_COUNT: usize = 32;

/// The coordinates `x`, `y`, `z` of control point `b` in row `a` of patch `p`,
/// at `PATCHES[p][a][b]`.
pub const PATCHES: [[[[i32; 3]; 4]; 4]; 32] = [
    // The rim, in four quarters.
    [
        [[140000, 0, 240000], [140000, -78400, 240000], [78400, -140000, 240000], [0, -140000, 240000]],
        [[133750, 0, 253125], [133750, -74900, 253125], [74900, -133750, 253125], [0, -133750, 253125]],
        [[143750, 0, 253125], [143750, -80500, 253125], [80500, -143750, 253125], [0, -143750, 253125]],
        [[150000, 0, 240000], [150000, -84000, 240000], [84000, -150000, 240000], [0, -150000, 240000]],
    ],
    [
        [[0, -140000, 240000], [-78400, -140000, 240000], [-140000, -78400, 240000], [-140000, 0, 240000]],
        [[0, -133750, 253125], [-74900, -133750, 253125], [-133750, -74900, 253125], [-133750, 0, 253125]],
        [[0, -143750, 253125], [-80500, -143750, 253125], [-143750, -80500, 253125], [-143750, 0, 253125]],
        [[0, -150000, 240000], [-84000, -150000, 240000], [-150000, -84000, 240000], [-150000, 0, 240000]],
    ],
    [
        [[-140000, 0, 240000], [-140000, 78400, 240000], [-78400, 140000, 240000], [0, 140000, 240000]],
        [[-133750, 0, 253125], [-133750, 74900, 253125], [-74900, 133750, 253125], [0, 133750, 253125]],
        [[-143750, 0, 253125], [-143750, 80500, 253125], [-80500, 143750, 253125], [0, 143750, 253125]],
        [[-150000, 0, 240000], [-150000, 84000, 240000], [-84000, 150000, 240000], [0, 150000, 240000]],
    ],
    [
        [[0, 140000, 240000], [78400, 140000, 240000], [140000, 78400, 240000], [140000, 0, 240000]],
        [[0, 133750, 253125], [74900, 133750, 253125], [133750, 74900, 253125], [133750, 0, 253125]],
        [[0, 143750, 253125], [80500, 143750, 253125], [143750, 80500, 253125], [143750, 0, 253125]],
        [[0, 150000, 240000], [84000, 150000, 240000], [150000, 84000, 240000], [150000, 0, 240000]],
    ],
    // The upper body.
    [
        [[150000, 0, 240000], [150000, -84000, 240000], [84000, -150000, 240000], [0, -150000, 240000]],
        [[175000, 0, 187500], [175000, -98000, 187500], [98000, -175000, 187500], [0, -175000, 187500]],
        [[200000, 0, 135000], [200000, -112000, 135000], [112000, -200000, 135000], [0, -200000, 135000]],
        [[200000, 0, 90000], [200000, -112000, 90000], [112000, -200000, 90000], [0, -200000, 90000]],
    ],
    [
        [[0, -150000, 240000], [-84000, -150000, 240000], [-150000, -84000, 240000], [-150000, 0, 240000]],
        [[0, -175000, 187500], [-98000, -175000, 187500], [-175000, -98000, 187500], [-175000, 0, 187500]],
        [[0, -200000, 135000], [-112000, -200000, 135000], [-200000, -112000, 135000], [-200000, 0, 135000]],
        [[0, -200000, 90000], [-112000, -200000, 90000], [-200000, -112000, 90000], [-200000, 0, 90000]],
    ],
    [
        [[-150000, 0, 240000], [-150000, 84000, 240000], [-84000, 150000, 240000], [0, 150000, 240000]],
        [[-175000, 0, 187500], [-175000, 98000, 187500], [-98000, 175000, 187500], [0, 175000, 187500]],
        [[-200000, 0, 135000], [-200000, 112000, 135000], [-112000, 200000, 135000], [0, 200000, 135000]],
        [[-200000, 0, 90000], [-200000, 112000, 90000], [-112000, 200000, 90000], [0, 200000, 90000]],
    ],
    [
        [[0, 150000, 240000], [84000, 150000, 240000], [150000, 84000, 240000], [150000, 0, 240000]],
        [[0, 175000, 187500], [98000, 175000, 187500], [175000, 98000, 187500], [175000, 0, 187500]],
        [[0, 200000, 135000], [112000, 200000, 135000], [200000, 112000, 135000], [200000, 0, 135000]],
        [[0, 200000, 90000], [112000, 200000, 90000], [200000, 112000, 90000], [200000, 0, 90000]],
    ],
    // The lower body.
    [
        [[200000, 0, 90000], [200000, -112000, 90000], [112000, -200000, 90000], [0, -200000, 90000]],
        [[200000, 0, 45000], [200000, -112000, 45000], [112000, -200000, 45000], [0, -200000, 45000]],
        [[150000, 0, 22500], [150000, -84000, 22500], [84000, -150000, 22500], [0, -150000, 22500]],
        [[150000, 0, 15000], [150000, -84000, 15000], [84000, -150000, 15000], [0, -150000, 15000]],
    ],
    [
        [[0, -200000, 90000], [-112000, -200000, 90000], [-200000, -112000, 90000], [-200000, 0, 90000]],
        [[0, -200000, 45000], [-112000, -200000, 45000], [-200000, -112000, 45000], [-200000, 0, 45000]],
        [[0, -150000, 22500], [-84000, -150000, 22500], [-150000, -84000, 22500], [-150000, 0, 22500]],
        [[0, -150000, 15000], [-84000, -150000, 15000], [-150000, -84000, 15000], [-150000, 0, 15000]],
    ],
    [
        [[-200000, 0, 90000], [-200000, 112000, 90000], [-112000, 200000, 90000], [0, 200000, 90000]],
        [[-200000, 0, 45000], [-200000, 112000, 45000], [-112000, 200000, 45000], [0, 200000, 45000]],
        [[-150000, 0, 22500], [-150000, 84000, 22500], [-84000, 150000, 22500], [0, 150000, 22500]],
        [[-150000, 0, 15000], [-150000, 84000, 15000], [-84000, 150000, 15000], [0, 150000, 15000]],
    ],
    [
        [[0, 200000, 90000], [112000, 200000, 90000], [200000, 112000, 90000], [200000, 0, 90000]],
        [[0, 200000, 45000], [112000, 200000, 45000], [200000, 112000, 45000], [200000, 0, 45000]],
        [[0, 150000, 22500], [84000, 150000, 22500], [150000, 84000, 22500], [150000, 0, 22500]],
        [[0, 150000, 15000], [84000, 150000, 15000], [150000, 84000, 15000], [150000, 0, 15000]],
    ],
    // The upper half of the handle.
    [
        [[-160000, 0, 202500], [-160000, -30000, 202500], [-150000, -30000, 225000], [-150000, 0, 225000]],
        [[-230000, 0, 202500], [-230000, -30000, 202500], [-250000, -30000, 225000], [-250000, 0, 225000]],
        [[-270000, 0, 202500], [-270000, -30000, 202500], [-300000, -30000, 225000], [-300000, 0, 225000]],
        [[-270000, 0, 180000], [-270000, -30000, 180000], [-300000, -30000, 180000], [-300000, 0, 180000]],
    ],
    [
        [[-150000, 0, 225000], [-150000, 30000, 225000], [-160000, 30000, 202500], [-160000, 0, 202500]],
        [[-250000, 0, 225000], [-250000, 30000, 225000], [-230000, 30000, 202500], [-230000, 0, 202500]],
        [[-300000, 0, 225000], [-300000, 30000, 225000], [-270000, 30000, 202500], [-270000, 0, 202500]],
        [[-300000, 0, 180000], [-300000, 30000, 180000], [-270000, 30000, 180000], [-270000, 0, 180000]],
    ],
    // The lower half of the handle.
    [
        [[-270000, 0, 180000], [-270000, -30000, 180000], [-300000, -30000, 180000], [-300000, 0, 180000]],
        [[-270000, 0, 157500], [-270000, -30000, 157500], [-300000, -30000, 135000], [-300000, 0, 135000]],
        [[-250000, 0, 112500], [-250000, -30000, 112500], [-265000, -30000, 93750], [-265000, 0, 93750]],
        [[-200000, 0, 90000], [-200000, -30000, 90000], [-190000, -30000, 60000], [-190000, 0, 60000]],
    ],
    [
        [[-300000, 0, 180000], [-300000, 30000, 180000], [-270000, 30000, 180000], [-270000, 0, 180000]],
        [[-300000, 0, 135000], [-300000, 30000, 135000], [-270000, 30000, 157500], [-270000, 0, 157500]],
        [[-265000, 0, 93750], [-265000, 30000, 93750], [-250000, 30000, 112500], [-250000, 0, 112500]],
        [[-190000, 0, 60000], [-190000, 30000, 60000], [-200000, 30000, 90000], [-200000, 0, 90000]],
    ],
    // The spout.
    [
        [[170000, 0, 142500], [170000, -66000, 142500], [170000, -66000, 60000], [170000, 0, 60000]],
        [[260000, 0, 142500], [260000, -66000, 142500], [310000, -66000, 82500], [310000, 0, 82500]],
        [[230000, 0, 210000], [230000, -25000, 210000], [240000, -25000, 202500], [240000, 0, 202500]],
        [[270000, 0, 240000], [270000, -25000, 240000], [330000, -25000, 240000], [330000, 0, 240000]],
    ],
    [
        [[170000, 0, 60000], [170000, 66000, 60000], [170000, 66000, 142500], [170000, 0, 142500]],
        [[310000, 0, 82500], [310000, 66000, 82500], [260000, 66000, 142500], [260000, 0, 142500]],
        [[240000, 0, 202500], [240000, 25000, 202500], [230000, 25000, 210000], [230000, 0, 210000]],
        [[330000, 0, 240000], [330000, 25000, 240000], [270000, 25000, 240000], [270000, 0, 240000]],
    ],
    // The tip of the spout.
    [
        [[270000, 0, 240000], [270000, -25000, 240000], [330000, -25000, 240000], [330000, 0, 240000]],
        [[280000, 0, 247500], [280000, -25000, 247500], [352500, -25000, 249375], [352500, 0, 249375]],
        [[290000, 0, 247500], [290000, -15000, 247500], [345000, -15000, 251250], [345000, 0, 251250]],
        [[280000, 0, 240000], [280000, -15000, 240000], [320000, -15000, 240000], [320000, 0, 240000]],
    ],
    [
        [[330000, 0, 240000], [330000, 25000, 240000], [270000, 25000, 240000], [270000, 0, 240000]],
        [[352500, 0, 249375], [352500, 25000, 249375], [280000, 25000, 247500], [280000, 0, 247500]],
        [[345000, 0, 251250], [345000, 15000, 251250], [290000, 15000, 247500], [290000, 0, 247500]],
        [[320000, 0, 240000], [320000, 15000, 240000], [280000, 15000, 240000], [280000, 0, 240000]],
    ],
    // The knob of the lid.
    [
        [[0, 0, 315000], [0, 0, 315000], [0, 0, 315000], [0, 0, 315000]],
        [[80000, 0, 315000], [80000, -45000, 315000], [45000, -80000, 315000], [0, -80000, 315000]],
        [[0, 0, 285000], [0, 0, 285000], [0, 0, 285000], [0, 0, 285000]],
        [[20000, 0, 270000], [20000, -11200, 270000], [11200, -20000, 270000], [0, -20000, 270000]],
    ],
    [
        [[0, 0, 315000], [0, 0, 315000], [0, 0, 315000], [0, 0, 315000]],
        [[0, -80000, 315000], [-45000, -80000, 315000], [-80000, -45000, 315000], [-80000, 0, 315000]],
        [[0, 0, 285000], [0, 0, 285000], [0, 0, 285000], [0, 0, 285000]],
        [[0, -20000, 270000], [-11200, -20000, 270000], [-20000, -11200, 270000], [-20000, 0, 270000]],
    ],
    [
        [[0, 0, 315000], [0, 0, 315000], [0, 0, 315000], [0, 0, 315000]],
        [[-80000, 0, 315000], [-80000, 45000, 315000], [-45000, 80000, 315000], [0, 80000, 315000]],
        [[0, 0, 285000], [0, 0, 285000], [0, 0, 285000], [0, 0, 285000]],
        [[-20000, 0, 270000], [-20000, 11200, 270000], [-11200, 20000, 270000], [0, 20000, 270000]],
    ],
    [
        [[0, 0, 315000], [0, 0, 315000], [0, 0, 315000], [0, 0, 315000]],
        [[0, 80000, 315000], [45000, 80000, 315000], [80000, 45000, 315000], [80000, 0, 315000]],
        [[0, 0, 285000], [0, 0, 285000], [0, 0, 285000], [0, 0, 285000]],
        [[0, 20000, 270000], [11200, 20000, 270000], [20000, 11200, 270000], [20000, 0, 270000]],
    ],
    // The lid.
    [
        [[20000, 0, 270000], [20000, -11200, 270000], [11200, -20000, 270000], [0, -20000, 270000]],
        [[40000, 0, 255000], [40000, -22400, 255000], [22400, -40000, 255000], [0, -40000, 255000]],
        [[130000, 0, 255000], [130000, -72800, 255000], [72800, -130000, 255000], [0, -130000, 255000]],
        [[130000, 0, 240000], [130000, -72800, 240000], [72800, -130000, 240000], [0, -130000, 240000]],
    ],
    [
        [[0, -20000, 270000], [-11200, -20000, 270000], [-20000, -11200, 270000], [-20000, 0, 270000]],
        [[0, -40000, 255000], [-22400, -40000, 255000], [-40000, -22400, 255000], [-40000, 0, 255000]],
        [[0, -130000, 255000], [-72800, -130000, 255000], [-130000, -72800, 255000], [-130000, 0, 255000]],
        [[0, -130000, 240000], [-72800, -130000, 240000], [-130000, -72800, 240000], [-130000, 0, 240000]],
    ],
    [
        [[-20000, 0, 270000], [-20000, 11200, 270000], [-11200, 20000, 270000], [0, 20000, 270000]],
        [[-40000, 0, 255000], [-40000, 22400, 255000], [-22400, 40000, 255000], [0, 40000, 255000]],
        [[-130000, 0, 255000], [-130000, 72800, 255000], [-72800, 130000, 255000], [0, 130000, 255000]],
        [[-130000, 0, 240000], [-130000, 72800, 240000], [-72800, 130000, 240000], [0, 130000, 240000]],
    ],
    [
        [[0, 20000, 270000], [11200, 20000, 270000], [20000, 11200, 270000], [20000, 0, 270000]],
        [[0, 40000, 255000], [22400, 40000, 255000], [40000, 22400, 255000], [40000, 0, 255000]],
        [[0, 130000, 255000], [72800, 130000, 255000], [130000, 72800, 255000], [130000, 0, 255000]],
        [[0, 130000, 240000], [72800, 130000, 240000], [130000, 72800, 240000], [130000, 0, 240000]],
    ],
    // The bottom.
    [
        [[0, 0, 0], [0, 0, 0], [0, 0, 0], [0, 0, 0]],
        [[142500, 0, 0], [142500, 79800, 0], [79800, 142500, 0], [0, 142500, 0]],
        [[150000, 0, 7500], [150000, 84000, 7500], [84000, 150000, 7500], [0, 150000, 7500]],
        [[150000, 0, 15000], [150000, 84000, 15000], [84000, 150000, 15000], [0, 150000, 15000]],
    ],
    [
        [[0, 0, 0], [0, 0, 0], [0, 0, 0], [0, 0, 0]],
        [[0, 142500, 0], [-79800, 142500, 0], [-142500, 79800, 0], [-142500, 0, 0]],
        [[0, 150000, 7500], [-84000, 150000, 7500], [-150000, 84000, 7500], [-150000, 0, 7500]],
        [[0, 150000, 15000], [-84000, 150000, 15000], [-150000, 84000, 15000], [-150000, 0, 15000]],
    ],
    [
        [[0, 0, 0], [0, 0, 0], [0, 0, 0], [0, 0, 0]],
        [[-142500, 0, 0], [-142500, -79800, 0], [-79800, -142500, 0], [0, -142500, 0]],
        [[-150000, 0, 7500], [-150000, -84000, 7500], [-84000, -150000, 7500], [0, -150000, 7500]],
        [[-150000, 0, 15000], [-150000, -84000, 15000], [-84000, -150000, 15000], [0, -150000, 15000]],
    ],
    [
        [[0, 0, 0], [0, 0, 0], [0, 0, 0], [0, 0, 0]],
        [[0, -142500, 0], [79800, -142500, 0], [142500, -79800, 0], [142500, 0, 0]],
        [[0, -150000, 7500], [84000, -150000, 7500], [150000, -84000, 7500], [150000, 0, 7500]],
        [[0, -150000, 15000], [84000, -150000, 15000], [150000, -84000, 15000], [150000, 0, 15000]],
    ],
];

/// Control point `b` in row `a` of patch `p`: its coordinates from
/// [`PATCHES`], and the weight [`UNIT`]. [`lemma_table_point`] says so to a
/// caller outside this file.
pub closed spec fn table_point(p: int, a: int, b: int) -> Point {
    Point {
        x: PATCHES[p][a][b][0] as int,
        y: PATCHES[p][a][b][1] as int,
        z: PATCHES[p][a][b][2] as int,
        w: UNIT as int,
    }
}

/// What [`table_point`] is.
pub proof fn lemma_table_point(p: int, a: int, b: int)
    ensures
        table_point(p, a, b) == (Point {
            x: PATCHES[p][a][b][0] as int,
            y: PATCHES[p][a][b][1] as int,
            z: PATCHES[p][a][b][2] as int,
            w: UNIT as int,
        }),
{
}

/// Every control point of the table has the weight [`UNIT`].
pub proof fn lemma_table_weight(p: int, a: int, b: int)
    ensures
        table_point(p, a, b).w == UNIT,
{
}

/// Patch `p` as four rows of four points.
pub open spec fn table_patch(p: int) -> Seq<Seq<Point>> {
    Seq::new(4, |a: int| Seq::new(4, |b: int| table_point(p, a, b)))
}

/// The 32 patches of the teapot, in the order of [`PATCHES`].
pub fn control_points() -> (out: Vec<Vec<Vec<Vertex>>>)
    ensures
        out.len() == PATCH_COUNT,
        forall|p: int| 0 <= p < PATCH_COUNT ==> is_patch(#[trigger] out[p]),
        forall|p: int| 0 <= p < PATCH_COUNT ==> patch_view(#[trigger] out[p]) == table_patch(p),
{
    let mut out: Vec<Vec<Vec<Vertex>>> = Vec::new();
    let mut p: usize = 0;
    while p < PATCH_COUNT
        invariant
            p <= PATCH_COUNT,
            out.len() == p,
            forall|q: int| 0 <= q < p ==> is_patch(#[trigger] out[q]),
            forall|q: int| 0 <= q < p ==> patch_view(#[trigger] out[q]) == table_patch(q),
        decreases PATCH_COUNT - p,
    {
        let mut patch: Vec<Vec<Vertex>> = Vec::new();
        let mut a: usize = 0;
        while a < 4
            invariant
                p < PATCH_COUNT,
                a <= 4,
                patch.len() == a,
                forall|i: int| 0 <= i < a ==> (#[trigger] patch[i]).len() == 4,
                forall|i: int, j: int|
                    0 <= i < a && 0 <= j < 4 ==> {
                        &&& (#[trigger] patch[i][j]).is_control_point()
                        &&& patch[i][j]@ == table_point(p as int, i, j)
                    },
            decreases 4 - a,
        {
            let mut row: Vec<Vertex> = Vec::new();
            let mut b: usize = 0;
            while b < 4
                invariant
                    p < PATCH_COUNT,
                    a < 4,
                    b <= 4,
                    row.len() == b,
                    forall|j: int|
                        0 <= j < b ==> {
                            &&& (#[trigger] row[j]).is_control_point()
                            &&& row[j]@ == table_point(p as int, a as int, j)
                        },
                decreases 4 - b,
            {
                row.push(vtx(PATCHES[p][a][b]));
                b += 1;
            }
            patch.push(row);
            a += 1;
        }
        assert(patch_view(patch) =~~= table_patch(p as int));
        out.push(patch);
        p += 1;
    }
    out
}

} // verus!
