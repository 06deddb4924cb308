//! The values that a mesh is made of: points, tangents and texture
//! coordinates, each held exactly.

use vstd::prelude::*;

verus! {

/// The weight of a control point. A control point's coordinates are counted
/// in units of `1 / UNIT`, so that its weight stands for one.
pub const UNIT: i128 = 100_000;

/// Three quotients over one denominator: the triple `(x / w, y / w, z / w)`.
///
/// This is what a [`Vertex`] and a [`Tangent`] are to a contract.
pub struct Point {
    pub x: int,
    pub y: int,
    pub z: int,
    pub w: int,
}

impl Point {
    /// The numerators `x`, `y`, `z` for `k` = 0, 1, 2, and the denominator `w`
    /// for any other `k`.
    pub open spec fn coord(self, k: int) -> int {
        if k == 0 {
            self.x
        } else if k == 1 {
            self.y
        } else if k == 2 {
            self.z
        } else {
            self.w
        }
    }

    /// Every component multiplied by `d`. For `d != 0` this is the same
    /// triple of quotients.
    pub open spec fn scaled(self, d: int) -> Point {
        Point { x: d * self.x, y: d * self.y, z: d * self.z, w: d * self.w }
    }

    /// Whether both stand for the same triple of quotients, given that both
    /// denominators are not zero.
    pub open spec fn same_as(self, other: Point) -> bool {
        &&& self.x * other.w == other.x * self.w
        &&& self.y * other.w == other.y * self.w
        &&& self.z * other.w == other.z * self.w
    }
}

/// A point with every component multiplied by the same number is the same
/// point.
pub proof fn lemma_scaled_same(p: Point, d: int)
    ensures
        p.scaled(d).same_as(p),
{
    assert((d * p.x) * p.w == p.x * (d * p.w) && (d * p.y) * p.w == p.y * (d * p.w) && (d * p.z)
        * p.w == p.z * (d * p.w)) by (nonlinear_arith);
}

/// Multiplying every component by one changes nothing.
pub proof fn lemma_scaled_by_one(p: Point)
    ensures
        p.scaled(1) == p,
{
    assert(p.scaled(1).x == p.x);
}

/// A point in homogeneous coordinates: `_pos` holds `x`, `y`, `z` and the
/// weight `w`, and the point is `(x / w, y / w, z / w)`.
#[derive(Clone, Copy, Debug, PartialEq, Eq)]
pub struct Vertex {
    pub _pos: [i128; 4],
}

impl View for Vertex {
    type V = Point;

    open spec fn view(&self) -> Point {
        Point {
            x: self._pos[0] as int,
            y: self._pos[1] as int,
            z: self._pos[2] as int,
            w: self._pos[3] as int,
        }
    }
}

impl Vertex {
    /// A control point has the weight [`UNIT`] and coordinates of 32 bits.
    pub open spec fn is_control_point(&self) -> bool {
        &&& self._pos[3] == UNIT
        &&& forall|k: int| 0 <= k < 3 ==> i32::MIN <= #[trigger] self._pos[k] <= i32::MAX
    }
}

/// The derivative of a surface along one parameter: the vector
/// `(dir[0] / scale, dir[1] / scale, dir[2] / scale)`, with `scale > 0`.
#[derive(Clone, Copy, Debug, PartialEq, Eq)]
pub struct Tangent {
    pub dir: [i128; 3],
    pub scale: i128,
}

impl View for Tangent {
    type V = Point;

    open spec fn view(&self) -> Point {
        Point {
            x: self.dir[0] as int,
            y: self.dir[1] as int,
            z: self.dir[2] as int,
            w: self.scale as int,
        }
    }
}

/// Two vertices with the same components are the same vertex.
pub proof fn lemma_vertex_determined(a: Vertex, b: Vertex)
    requires
        a@ == b@,
    ensures
        a == b,
{
    assert(a._pos[0] == b._pos[0] && a._pos[1] == b._pos[1] && a._pos[2] == b._pos[2]
        && a._pos[3] == b._pos[3]);
    assert(a._pos =~= b._pos);
}

/// Two tangents with the same components are the same tangent.
pub proof fn lemma_tangent_determined(a: Tangent, b: Tangent)
    requires
        a@ == b@,
    ensures
        a == b,
{
    assert(a.dir[0] == b.dir[0] && a.dir[1] == b.dir[1] && a.dir[2] == b.dir[2]);
    assert(a.dir =~= b.dir);
}

/// The quotient `num / den`.
#[derive(Clone, Copy, Debug, PartialEq, Eq)]
pub struct Fraction {
    pub num: u32,
    pub den: u32,
}

/// A texture coordinate: the surface parameters `u` and `v` of a sample.
#[derive(Clone, Copy, Debug, PartialEq, Eq)]
pub struct Uv {
    pub u: Fraction,
    pub v: Fraction,
}

/// The control point with the coordinates `pos`, in units of `1 / UNIT`.
pub fn vtx(pos: [i32; 3]) -> (out: Vertex)
    ensures
        out@ == (Point { x: pos[0] as int, y: pos[1] as int, z: pos[2] as int, w: UNIT as int }),
        out.is_control_point(),
{
    Vertex { _pos: [pos[0] as i128, pos[1] as i128, pos[2] as i128, UNIT] }
}

} // verus!
