//! An indexed triangle mesh.
//!
//! A mesh has one position, two tangents and one texture coordinate for each
//! of its samples, and a list of indices, three for each triangle, that refer
//! to the samples by number.

use vstd::prelude::*;
use crate::grid::index_ints;
use crate::vertex::{Point, Tangent, Uv, Vertex};

verus! {

/// A mesh as a contract sees it.
pub struct MeshModel {
    /// The position of each sample.
    pub positions: Seq<Point>,
    /// The derivative of the surface along `u` at each sample.
    pub tangents_u: Seq<Point>,
    /// The derivative of the surface along `v` at each sample.
    pub tangents_v: Seq<Point>,
    /// The surface parameters of each sample.
    pub uvs: Seq<Uv>,
    /// The corners of the triangles, three each.
    pub indices: Seq<int>,
}

impl MeshModel {
    /// The mesh without samples.
    pub open spec fn empty() -> MeshModel {
        MeshModel {
            positions: Seq::empty(),
            tangents_u: Seq::empty(),
            tangents_v: Seq::empty(),
            uvs: Seq::empty(),
            indices: Seq::empty(),
        }
    }

    /// Every sample has all of its attributes, the indices come in threes,
    /// and every index refers to a sample.
    pub open spec fn wf(self) -> bool {
        &&& self.tangents_u.len() == self.positions.len()
        &&& self.tangents_v.len() == self.positions.len()
        &&& self.uvs.len() == self.positions.len()
        &&& self.indices.len() % 3 == 0
        &&& forall|j: int|
            0 <= j < self.indices.len() ==> 0 <= #[trigger] self.indices[j] < self.positions.len()
    }

    /// This mesh followed by `other`: the samples of `other` come after the
    /// samples of this mesh, and its indices are moved up by the number of
    /// samples of this mesh, so that they refer to the same samples as before.
    pub open spec fn joined(self, other: MeshModel) -> MeshModel {
        MeshModel {
            positions: self.positions + other.positions,
            tangents_u: self.tangents_u + other.tangents_u,
            tangents_v: self.tangents_v + other.tangents_v,
            uvs: self.uvs + other.uvs,
            indices: self.indices + Seq::new(
                other.indices.len(),
                |j: int| self.positions.len() + other.indices[j],
            ),
        }
    }
}

/// Joining two well-formed meshes gives a well-formed mesh.
pub proof fn lemma_joined_wf(a: MeshModel, b: MeshModel)
    requires
        a.wf(),
        b.wf(),
    ensures
        a.joined(b).wf(),
{
}

/// Vertices as points.
pub open spec fn points_of(s: Seq<Vertex>) -> Seq<Point> {
    Seq::new(s.len(), |i: int| s[i]@)
}

/// Tangents as points.
pub open spec fn directions_of(s: Seq<Tangent>) -> Seq<Point> {
    Seq::new(s.len(), |i: int| s[i]@)
}

/// An indexed triangle mesh.
#[derive(Clone, Debug, PartialEq, Eq)]
pub struct Mesh {
    /// The position of each sample.
    pub positions: Vec<Vertex>,
    /// The derivative of the surface along `u` at each sample.
    pub tangents_u: Vec<Tangent>,
    /// The derivative of the surface along `v` at each sample.
    pub tangents_v: Vec<Tangent>,
    /// The surface parameters of each sample.
    pub uvs: Vec<Uv>,
    /// The corners of the triangles, three each.
    pub indices: Vec<u32>,
}

impl View for Mesh {
    type V = MeshModel;

    open spec fn view(&self) -> MeshModel {
        MeshModel {
            positions: points_of(self.positions@),
            tangents_u: directions_of(self.tangents_u@),
            tangents_v: directions_of(self.tangents_v@),
            uvs: self.uvs@,
            indices: index_ints(self.indices@),
        }
    }
}

impl Mesh {
    /// Whether the mesh is well formed.
    pub open spec fn wf(&self) -> bool {
        self@.wf()
    }

    /// The mesh without samples.
    pub fn new() -> (out: Mesh)
        ensures
            out@ == MeshModel::empty(),
            out.wf(),
    {
        let out = Mesh {
            positions: Vec::new(),
            tangents_u: Vec::new(),
            tangents_v: Vec::new(),
            uvs: Vec::new(),
            indices: Vec::new(),
        };
        assert(out@.positions =~= Seq::empty());
        assert(out@.tangents_u =~= Seq::empty());
        assert(out@.tangents_v =~= Seq::empty());
        assert(out@.indices =~= Seq::empty());
        out
    }

    /// Appends `patch` to this mesh. The indices of `patch` are moved up by
    /// the number of samples that this mesh had before.
    pub fn append(&mut self, patch: Mesh)
        requires
            old(self).wf(),
            patch.wf(),
            old(self).positions.len() + patch.positions.len() <= u32::MAX,
        ensures
            final(self)@ == old(self)@.joined(patch@),
            final(self).wf(),
    {
        let ghost before = self@;
        let ghost added = patch@;
        let mut patch = patch;
        let base: u32 = self.positions.len() as u32;
        self.positions.append(&mut patch.positions);
        self.tangents_u.append(&mut patch.tangents_u);
        self.tangents_v.append(&mut patch.tangents_v);
        self.uvs.append(&mut patch.uvs);
        let count: usize = patch.indices.len();
        let ghost start = self.indices@;
        let ghost mid = *self;
        let mut j: usize = 0;
        while j < count
            invariant
                j <= count,
                count == patch.indices.len(),
                added.indices == index_ints(patch.indices@),
                forall|i: int| 0 <= i < count ==> 0 <= #[trigger] added.indices[i] < added.positions.len(),
                base + added.positions.len() <= u32::MAX,
                self.positions == mid.positions,
                self.tangents_u == mid.tangents_u,
                self.tangents_v == mid.tangents_v,
                self.uvs == mid.uvs,
                self.indices@.len() == start.len() + j,
                forall|i: int| 0 <= i < start.len() ==> self.indices@[i] == start[i],
                forall|i: int|
                    0 <= i < j ==> self.indices@[start.len() + i] as int == base + added.indices[i],
            decreases count - j,
        {
            assert(added.indices[j as int] == patch.indices[j as int]);
            self.indices.push(base + patch.indices[j]);
            j += 1;
        }
        assert(self@.positions =~= before.joined(added).positions);
        assert(self@.tangents_u =~= before.joined(added).tangents_u);
        assert(self@.tangents_v =~= before.joined(added).tangents_v);
        assert(self@.uvs =~= before.joined(added).uvs);
        assert(self@.indices =~= before.joined(added).indices);
        proof {
            lemma_joined_wf(before, added);
        }
    }
}

} // verus!
