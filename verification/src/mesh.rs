//! Triangle meshes: vertex positions and the attribute sequences that run
//! parallel to them.

use crate::bits::{is_sign, is_unit};
use crate::seqs::{as_opt_slice, opt_seq, opt_slice_seq};
use vstd::prelude::*;

verus! {

/// A mesh. `positions` anchors the vertex count; each other per-vertex
/// sequence is optional. The fourth component of a tangent is its
/// handedness. `material` counts among the scene's materials.
#[derive(Debug, PartialEq, Eq)]
pub struct Mesh {
    positions: Vec<[u32; 3]>,
    uvs: Option<Vec<[u32; 2]>>,
    normals: Option<Vec<[u32; 3]>>,
    colors: Option<Vec<[u32; 3]>>,
    tangents: Option<Vec<[u32; 4]>>,
    indices: Option<Vec<[u16; 3]>>,
    material: Option<u8>,
}

/// The mathematical value of a [`Mesh`].
pub struct MeshView {
    pub positions: Seq<[u32; 3]>,
    pub uvs: Option<Seq<[u32; 2]>>,
    pub normals: Option<Seq<[u32; 3]>>,
    pub colors: Option<Seq<[u32; 3]>>,
    pub tangents: Option<Seq<[u32; 4]>>,
    pub indices: Option<Seq<[u16; 3]>>,
    pub material: Option<u8>,
}

impl View for Mesh {
    type V = MeshView;

    closed spec fn view(&self) -> MeshView {
        MeshView {
            positions: self.positions@,
            uvs: opt_seq(self.uvs),
            normals: opt_seq(self.normals),
            colors: opt_seq(self.colors),
            tangents: opt_seq(self.tangents),
            indices: opt_seq(self.indices),
            material: self.material,
        }
    }
}

/// Whether an optional sequence, where present, has `n` items.
pub open spec fn absent_or_len<T>(items: Option<Seq<T>>, n: nat) -> bool {
    items matches Some(s) ==> s.len() == n
}

/// Whether the handedness of every tangent is `1.0` or `-1.0`.
pub open spec fn all_signed(tangents: Seq<[u32; 4]>) -> bool {
    forall|i: int| 0 <= i < tangents.len() ==> is_sign(#[trigger] tangents[i][3])
}

impl MeshView {
    /// Whether each per-vertex sequence that is present is as long as
    /// `positions`.
    pub open spec fn lengths_agree(self) -> bool {
        &&& absent_or_len(self.uvs, self.positions.len())
        &&& absent_or_len(self.normals, self.positions.len())
        &&& absent_or_len(self.colors, self.positions.len())
        &&& absent_or_len(self.tangents, self.positions.len())
    }

    /// Whether the handedness of every tangent is `1.0` or `-1.0`.
    pub open spec fn tangents_signed(self) -> bool {
        self.tangents matches Some(t) ==> all_signed(t)
    }

    /// The mesh's own invariant.
    pub open spec fn is_right(self) -> bool {
        self.lengths_agree() && self.tangents_signed()
    }

    /// Whether the material index, where there is one, is below `materials`.
    pub open spec fn material_within(self, materials: nat) -> bool {
        self.material matches Some(m) ==> m < materials
    }
}

/// Whether `items` is present with a length other than `n`.
fn len_differs<T>(items: &Option<Vec<T>>, n: usize) -> (differs: bool)
    ensures
        differs == !absent_or_len(opt_seq(*items), n as nat),
{
    match items {
        Some(v) => v.len() != n,
        None => false,
    }
}

/// Whether some tangent has a handedness other than `1.0` and `-1.0`.
fn some_unsigned(tangents: &Vec<[u32; 4]>) -> (found: bool)
    ensures
        found == !all_signed(tangents@),
{
    let mut i: usize = 0;
    while i < tangents.len()
        invariant
            i <= tangents@.len(),
            forall|j: int| 0 <= j < i ==> is_sign(#[trigger] tangents@[j][3]),
        decreases tangents@.len() - i,
    {
        let tangent: &[u32; 4] = &tangents[i];
        if !is_unit(tangent[3]) {
            assert(!is_sign(tangents@[i as int][3]));
            return true;
        }
        i += 1;
    }
    false
}

impl Mesh {
    /// Builds a mesh, `None` where the parts do not make a right one.
    pub fn new(
        positions: Vec<[u32; 3]>,
        uvs: Option<Vec<[u32; 2]>>,
        normals: Option<Vec<[u32; 3]>>,
        colors: Option<Vec<[u32; 3]>>,
        tangents: Option<Vec<[u32; 4]>>,
        indices: Option<Vec<[u16; 3]>>,
        material: Option<u8>,
    ) -> (mesh: Option<Mesh>)
        ensures
            ({
                let parts = MeshView {
                    positions: positions@,
                    uvs: opt_seq(uvs),
                    normals: opt_seq(normals),
                    colors: opt_seq(colors),
                    tangents: opt_seq(tangents),
                    indices: opt_seq(indices),
                    material,
                };
                match mesh {
                    Some(m) => m@ == parts && parts.is_right(),
                    None => !parts.is_right(),
                }
            }),
    {
        let ret = Mesh::assemble(positions, uvs, normals, colors, tangents, indices, material);
        if ret.isnt_right() {
            None
        } else {
            Some(ret)
        }
    }

    /// Builds a mesh from its parts as they are.
    pub(crate) fn assemble(
        positions: Vec<[u32; 3]>,
        uvs: Option<Vec<[u32; 2]>>,
        normals: Option<Vec<[u32; 3]>>,
        colors: Option<Vec<[u32; 3]>>,
        tangents: Option<Vec<[u32; 4]>>,
        indices: Option<Vec<[u16; 3]>>,
        material: Option<u8>,
    ) -> (mesh: Mesh)
        ensures
            mesh@ == (MeshView {
                positions: positions@,
                uvs: opt_seq(uvs),
                normals: opt_seq(normals),
                colors: opt_seq(colors),
                tangents: opt_seq(tangents),
                indices: opt_seq(indices),
                material,
            }),
    {
        Mesh { positions, uvs, normals, colors, tangents, indices, material }
    }

    pub fn positions(&self) -> (items: &[[u32; 3]])
        ensures
            items@ == self@.positions,
    {
        self.positions.as_slice()
    }

    pub fn uvs(&self) -> (items: Option<&[[u32; 2]]>)
        ensures
            opt_slice_seq(items) == self@.uvs,
    {
        as_opt_slice(&self.uvs)
    }

    pub fn normals(&self) -> (items: Option<&[[u32; 3]]>)
        ensures
            opt_slice_seq(items) == self@.normals,
    {
        as_opt_slice(&self.normals)
    }

    pub fn colors(&self) -> (items: Option<&[[u32; 3]]>)
        ensures
            opt_slice_seq(items) == self@.colors,
    {
        as_opt_slice(&self.colors)
    }

    pub fn tangents(&self) -> (items: Option<&[[u32; 4]]>)
        ensures
            opt_slice_seq(items) == self@.tangents,
    {
        as_opt_slice(&self.tangents)
    }

    pub fn indices(&self) -> (items: Option<&[[u16; 3]]>)
        ensures
            opt_slice_seq(items) == self@.indices,
    {
        as_opt_slice(&self.indices)
    }

    pub fn material(&self) -> (index: Option<u8>)
        ensures
            index == self@.material,
    {
        self.material
    }

    /// Whether some per-vertex sequence that is present differs in length
    /// from `positions`.
    pub fn lengths_differ(&self) -> (differ: bool)
        ensures
            differ == !self@.lengths_agree(),
    {
        let l = self.positions.len();
        len_differs(&self.uvs, l) || len_differs(&self.normals, l) || len_differs(&self.colors, l)
            || len_differs(&self.tangents, l)
    }

    /// Whether some tangent has a handedness other than `1.0` and `-1.0`.
    pub fn tangents_unsigned(&self) -> (found: bool)
        ensures
            found == !self@.tangents_signed(),
    {
        match &self.tangents {
            Some(t) => some_unsigned(t),
            None => false,
        }
    }

    /// Whether the mesh breaks its own invariant.
    pub fn isnt_right(&self) -> (wrong: bool)
        ensures
            wrong == !self@.is_right(),
    {
        self.lengths_differ() || self.tangents_unsigned()
    }
}

} // verus!
