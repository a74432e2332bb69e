//! Triangle meshes as the GUI's tessellator gives them, and their split into meshes that
//! 16-bit indices can address.

use crate::gui::TextureId;
use vstd::prelude::*;

verus! {

/// `egui::epaint::Vertex`, one corner of a triangle: position, texture coordinate and
/// colour, laid out as the GPU takes them. Nothing here looks inside.
#[verifier::external_type_specification]
#[verifier::external_body]
pub struct ExVertex(egui::epaint::Vertex);

/// Textured triangles: three indices into `vertices` for each.
#[derive(Clone, Debug, PartialEq, Eq)]
pub struct Mesh {
    pub indices: Vec<u32>,
    pub vertices: Vec<egui::epaint::Vertex>,
    pub texture_id: TextureId,
}

/// Textured triangles with 16-bit indices.
#[derive(Clone, Debug, PartialEq, Eq)]
pub struct Mesh16 {
    pub indices: Vec<u16>,
    pub vertices: Vec<egui::epaint::Vertex>,
    pub texture_id: TextureId,
}

/// A mesh with its lists as sequences.
pub struct MeshView {
    pub indices: Seq<u32>,
    pub vertices: Seq<egui::epaint::Vertex>,
    pub texture_id: TextureId,
}

/// A 16-bit mesh with its lists as sequences.
pub struct Mesh16View {
    pub indices: Seq<u16>,
    pub vertices: Seq<egui::epaint::Vertex>,
    pub texture_id: TextureId,
}

impl View for Mesh {
    type V = MeshView;

    open spec fn view(&self) -> MeshView {
        MeshView { indices: self.indices@, vertices: self.vertices@, texture_id: self.texture_id }
    }
}

impl View for Mesh16 {
    type V = Mesh16View;

    open spec fn view(&self) -> Mesh16View {
        Mesh16View { indices: self.indices@, vertices: self.vertices@, texture_id: self.texture_id }
    }
}

/// The most vertices that 16-bit indices are asked to address.
pub const MAX_VERTICES: usize = 65535;

/// The smallest of the three indices of the triangle `k`.
pub open spec fn triangle_min(indices: Seq<u32>, k: int) -> int {
    let a = indices[3 * k] as int;
    let b = indices[3 * k + 1] as int;
    let c = indices[3 * k + 2] as int;
    if a <= b && a <= c {
        a
    } else if b <= c {
        b
    } else {
        c
    }
}

/// The largest of the three indices of the triangle `k`.
pub open spec fn triangle_max(indices: Seq<u32>, k: int) -> int {
    let a = indices[3 * k] as int;
    let b = indices[3 * k + 1] as int;
    let c = indices[3 * k + 2] as int;
    if a >= b && a >= c {
        a
    } else if b >= c {
        b
    } else {
        c
    }
}

impl MeshView {
    /// The vertex count fits 32 bits and every index names a vertex.
    pub open spec fn valid(self) -> bool {
        &&& self.vertices.len() <= u32::MAX
        &&& forall|i: int|
            0 <= i < self.indices.len() ==> (#[trigger] self.indices[i]) < self.vertices.len()
    }

    /// The indices come in whole triangles, and no triangle reaches over more vertices than
    /// 16-bit indices address.
    pub open spec fn narrow_triangles(self) -> bool {
        &&& self.indices.len() % 3 == 0
        &&& forall|k: int|
            0 <= k < self.indices.len() / 3 ==> #[trigger] triangle_max(self.indices, k)
                - triangle_min(self.indices, k) < MAX_VERTICES
    }

    /// The mesh can be split: it is valid, and where it has too many vertices for 16-bit
    /// indices, its triangles are whole and narrow.
    pub open spec fn splittable(self) -> bool {
        self.valid() && (self.vertices.len() > MAX_VERTICES ==> self.narrow_triangles())
    }
}

impl Mesh16View {
    /// The vertex count fits 16 bits and every index names a vertex.
    pub open spec fn valid(self) -> bool {
        &&& self.vertices.len() <= MAX_VERTICES
        &&& forall|i: int|
            0 <= i < self.indices.len() ==> (#[trigger] self.indices[i]) < self.vertices.len()
    }
}

/// The views of a list of 16-bit meshes, in order.
pub open spec fn mesh16_views(meshes: Seq<Mesh16>) -> Seq<Mesh16View> {
    Seq::new(meshes.len(), |i: int| meshes[i]@)
}

/// The index and vertex lists of the meshes that `egui::epaint::Mesh::split_to_u16` makes
/// of a mesh with these indices and vertices.
pub uninterp spec fn split_to_u16(indices: Seq<u32>, vertices: Seq<egui::epaint::Vertex>) -> Seq<
    (Seq<u16>, Seq<egui::epaint::Vertex>),
>;

/// Meshes of the given index and vertex lists that all draw with one texture.
pub open spec fn with_texture(
    parts: Seq<(Seq<u16>, Seq<egui::epaint::Vertex>)>,
    texture_id: TextureId,
) -> Seq<Mesh16View> {
    Seq::new(
        parts.len(),
        |i: int| Mesh16View { indices: parts[i].0, vertices: parts[i].1, texture_id },
    )
}

/// The meshes that a mesh is split into; each draws with the texture of the whole.
pub open spec fn split_meshes(mesh: MeshView) -> Seq<Mesh16View> {
    with_texture(split_to_u16(mesh.indices, mesh.vertices), mesh.texture_id)
}

/// The mesh itself with its indices narrowed, which is the whole split of a mesh that
/// 16-bit indices can address as it is.
pub open spec fn narrowed(mesh: MeshView) -> Mesh16View {
    Mesh16View {
        indices: Seq::new(mesh.indices.len(), |i: int| mesh.indices[i] as u16),
        vertices: mesh.vertices,
        texture_id: mesh.texture_id,
    }
}

/// `egui::epaint::Mesh::split_to_u16`. The call panics on a mesh that is not valid and, where
/// the mesh has more than 65535 vertices, on a trailing partial triangle or a triangle that
/// spans more than 65535 vertices: `requires` leaves those out. Every mesh that comes back
/// is valid and carries the texture of the whole; a mesh of at most 65535 vertices comes
/// back as one mesh with the same vertices and its indices narrowed.
#[verifier::external_body]
pub(crate) fn split(mesh: Mesh) -> (meshes: Vec<Mesh16>)
    requires
        mesh@.splittable(),
    ensures
        mesh16_views(meshes@) == with_texture(
            split_to_u16(mesh.indices@, mesh.vertices@),
            mesh.texture_id,
        ),
        forall|i: int| 0 <= i < meshes@.len() ==> (#[trigger] meshes@[i])@.valid(),
        mesh.vertices@.len() <= MAX_VERTICES ==> mesh16_views(meshes@) == seq![narrowed(mesh@)],
{
    let Mesh { indices, vertices, texture_id } = mesh;
    let whole = egui::epaint::Mesh { indices, vertices, texture_id: Default::default() };
    let parts = whole.split_to_u16().into_iter();
    parts.map(|m| Mesh16 { indices: m.indices, vertices: m.vertices, texture_id }).collect()
}

impl Mesh {
    /// Tells whether every index names a vertex and the vertex count fits 32 bits.
    pub fn is_valid(&self) -> (ok: bool)
        ensures
            ok == self@.valid(),
    {
        let n: usize = self.vertices.len();
        if n > 0xffff_ffff {
            return false;
        }
        let mut i: usize = 0;
        while i < self.indices.len()
            invariant
                i <= self.indices.len(),
                n == self.vertices@.len(),
                forall|k: int| 0 <= k < i ==> (#[trigger] self.indices@[k]) < n,
            decreases self.indices.len() - i,
        {
            if (self.indices[i] as usize) >= n {
                assert(self@.indices[i as int] >= n);
                return false;
            }
            i += 1;
        }
        true
    }

    /// Tells whether the mesh can be split into meshes with 16-bit indices.
    pub fn is_splittable(&self) -> (ok: bool)
        ensures
            ok == self@.splittable(),
    {
        if !self.is_valid() {
            return false;
        }
        if self.vertices.len() <= MAX_VERTICES {
            return true;
        }
        let len: usize = self.indices.len();
        if len % 3 != 0 {
            return false;
        }
        let mut k: usize = 0;
        while k < len / 3
            invariant
                len == self.indices@.len(),
                len % 3 == 0,
                k <= len / 3,
                forall|j: int|
                    0 <= j < k ==> #[trigger] triangle_max(self.indices@, j) - triangle_min(
                        self.indices@,
                        j,
                    ) < MAX_VERTICES,
            decreases len / 3 - k,
        {
            let a: u32 = self.indices[3 * k];
            let b: u32 = self.indices[3 * k + 1];
            let c: u32 = self.indices[3 * k + 2];
            let low: u32 = if a <= b && a <= c {
                a
            } else if b <= c {
                b
            } else {
                c
            };
            let high: u32 = if a >= b && a >= c {
                a
            } else if b >= c {
                b
            } else {
                c
            };
            assert(low == triangle_min(self.indices@, k as int));
            assert(high == triangle_max(self.indices@, k as int));
            if high - low >= 65535 {
                assert(triangle_max(self@.indices, k as int) - triangle_min(self@.indices, k as int)
                    >= MAX_VERTICES);
                return false;
            }
            k += 1;
        }
        true
    }
}

impl Mesh16 {
    /// Tells whether every index names a vertex and the vertex count fits 16 bits.
    pub fn is_valid(&self) -> (ok: bool)
        ensures
            ok == self@.valid(),
    {
        let n: usize = self.vertices.len();
        if n > MAX_VERTICES {
            return false;
        }
        let mut i: usize = 0;
        while i < self.indices.len()
            invariant
                i <= self.indices.len(),
                n == self.vertices@.len(),
                forall|k: int| 0 <= k < i ==> (#[trigger] self.indices@[k]) < n,
            decreases self.indices.len() - i,
        {
            if (self.indices[i] as usize) >= n {
                assert(self@.indices[i as int] >= n);
                return false;
            }
            i += 1;
        }
        true
    }
}

} // verus!
