//! The stored form of a scene.
//!
//! A scene is stored by `rkyv`, which takes values made of tuples, arrays,
//! vectors, options and results. A *record* is a scene, or a part of one,
//! written as such a value: a struct as the tuple of its fields in their
//! order, an enum of two variants as a `Result`, the first variant being
//! `Ok`, and one of three as a `Result` whose `Err` is the `Result` of the
//! last two. Each record stands for exactly one value and each value has
//! exactly one record.

use crate::image::{Image, ImageView};
use crate::light::Light;
use crate::material::{Material, MaterialView};
use crate::mesh::{Mesh, MeshView};
use crate::mre::Mre;
use crate::scene::{Scene, SceneView};
use crate::seqs::{copy_opt_slice, copy_slice, count, opt_seq, opt_slice_len, views};
use crate::uniform::Uniform;
use vstd::prelude::*;

verus! {

/// Colour, or texture.
pub type UniformRecord = Result<[u32; 3], u8>;

/// Texture, or metallic, roughness and emission.
pub type MreRecord = Result<u8, (u32, u32, u32)>;

/// Albedo, metallic-roughness-emission, normal texture, specular.
pub type MaterialRecord = (UniformRecord, MreRecord, Option<u8>, u32);

/// Position, colour, power, radius.
pub type PointRecord = ([u32; 3], [u32; 3], u32, u32);

/// Direction, colour, power.
pub type SunRecord = ([u32; 3], [u32; 3], u32);

/// Position, direction, colour, power, radius, blend.
pub type SpotRecord = ([u32; 3], [u32; 3], [u32; 3], u32, u32, u32);

/// Point, or sun, or spot.
pub type LightRecord = Result<PointRecord, Result<SunRecord, SpotRecord>>;

/// Positions, uvs, normals, colours, tangents, indices, material.
pub type MeshRecord = (
    Vec<[u32; 3]>,
    Option<Vec<[u32; 2]>>,
    Option<Vec<[u32; 3]>>,
    Option<Vec<[u32; 3]>>,
    Option<Vec<[u32; 4]>>,
    Option<Vec<[u16; 3]>>,
    Option<u8>,
);

/// Width, height, encoded bytes.
pub type ImageRecord = (u32, u32, Vec<u8>);

/// Meshes, materials, lights, images.
pub type SceneRecord = (
    Option<Vec<MeshRecord>>,
    Option<Vec<MaterialRecord>>,
    Option<Vec<LightRecord>>,
    Option<Vec<ImageRecord>>,
);

/// The uniform that a record stands for.
pub open spec fn uniform_of(r: UniformRecord) -> Uniform {
    match r {
        Ok(color) => Uniform::Color(color),
        Err(texture) => Uniform::Texture(texture),
    }
}

/// The metallic-roughness-emission that a record stands for.
pub open spec fn mre_of(r: MreRecord) -> Mre {
    match r {
        Ok(texture) => Mre::Texture(texture),
        Err(v) => Mre::Value { metallic: v.0, roughness: v.1, emission: v.2 },
    }
}

/// The material that a record stands for.
pub open spec fn material_of(r: MaterialRecord) -> MaterialView {
    MaterialView {
        albedo: uniform_of(r.0),
        metallic_roughness_emission: mre_of(r.1),
        normal_texture: r.2,
        specular: r.3,
    }
}

/// The light that a record stands for.
pub open spec fn light_of(r: LightRecord) -> Light {
    match r {
        Ok(p) => Light::Point { position: p.0, color: p.1, power: p.2, radius: p.3 },
        Err(Ok(s)) => Light::Sun { direction: s.0, color: s.1, power: s.2 },
        Err(Err(s)) => Light::Spot {
            position: s.0,
            direction: s.1,
            color: s.2,
            power: s.3,
            radius: s.4,
            blend: s.5,
        },
    }
}

/// The mesh that a record stands for.
pub open spec fn mesh_of(r: MeshRecord) -> MeshView {
    MeshView {
        positions: r.0@,
        uvs: opt_seq(r.1),
        normals: opt_seq(r.2),
        colors: opt_seq(r.3),
        tangents: opt_seq(r.4),
        indices: opt_seq(r.5),
        material: r.6,
    }
}

/// The image that a record stands for.
pub open spec fn image_of(r: ImageRecord) -> ImageView {
    ImageView { width: r.0, height: r.1, data: r.2@ }
}

/// The materials that a sequence of records stands for.
pub open spec fn materials_of(records: Seq<MaterialRecord>) -> Seq<MaterialView> {
    Seq::new(records.len(), |i: int| material_of(records[i]))
}

/// The lights that a sequence of records stands for.
pub open spec fn lights_of(records: Seq<LightRecord>) -> Seq<Light> {
    Seq::new(records.len(), |i: int| light_of(records[i]))
}

/// The meshes that a sequence of records stands for.
pub open spec fn meshes_of(records: Seq<MeshRecord>) -> Seq<MeshView> {
    Seq::new(records.len(), |i: int| mesh_of(records[i]))
}

/// The images that a sequence of records stands for.
pub open spec fn images_of(records: Seq<ImageRecord>) -> Seq<ImageView> {
    Seq::new(records.len(), |i: int| image_of(records[i]))
}

/// The scene that a record stands for.
pub open spec fn scene_of(r: SceneRecord) -> SceneView {
    SceneView {
        meshes: match r.0 {
            Some(records) => Some(meshes_of(records@)),
            None => None,
        },
        materials: match r.1 {
            Some(records) => Some(materials_of(records@)),
            None => None,
        },
        lights: match r.2 {
            Some(records) => Some(lights_of(records@)),
            None => None,
        },
        images: match r.3 {
            Some(records) => Some(images_of(records@)),
            None => None,
        },
    }
}

/// The record of a uniform.
pub fn uniform_record(u: &Uniform) -> (r: UniformRecord)
    ensures
        uniform_of(r) == *u,
{
    match u {
        Uniform::Color(color) => Ok(*color),
        Uniform::Texture(texture) => Err(*texture),
    }
}

/// The uniform of a record.
pub fn uniform_from(r: UniformRecord) -> (u: Uniform)
    ensures
        u == uniform_of(r),
{
    match r {
        Ok(color) => Uniform::Color(color),
        Err(texture) => Uniform::Texture(texture),
    }
}

/// The record of a metallic-roughness-emission.
pub fn mre_record(m: &Mre) -> (r: MreRecord)
    ensures
        mre_of(r) == *m,
{
    match m {
        Mre::Texture(texture) => Ok(*texture),
        Mre::Value { metallic, roughness, emission } => Err((*metallic, *roughness, *emission)),
    }
}

/// The metallic-roughness-emission of a record.
pub fn mre_from(r: MreRecord) -> (m: Mre)
    ensures
        m == mre_of(r),
{
    match r {
        Ok(texture) => Mre::Texture(texture),
        Err(v) => Mre::Value { metallic: v.0, roughness: v.1, emission: v.2 },
    }
}

/// The record of a material.
pub fn material_record(m: &Material) -> (r: MaterialRecord)
    ensures
        material_of(r) == m@,
{
    (
        uniform_record(m.albedo()),
        mre_record(m.metallic_roughness_emission()),
        m.normal_texture(),
        m.specular(),
    )
}

/// The material of a record.
pub fn material_from(r: MaterialRecord) -> (m: Material)
    ensures
        m@ == material_of(r),
{
    Material::new(uniform_from(r.0), mre_from(r.1), r.2, r.3)
}

/// The record of a light.
pub fn light_record(l: &Light) -> (r: LightRecord)
    ensures
        light_of(r) == *l,
{
    match l {
        Light::Point { position, color, power, radius } => Ok(
            (*position, *color, *power, *radius),
        ),
        Light::Sun { direction, color, power } => Err(Ok((*direction, *color, *power))),
        Light::Spot { position, direction, color, power, radius, blend } => Err(
            Err((*position, *direction, *color, *power, *radius, *blend)),
        ),
    }
}

/// The light of a record.
pub fn light_from(r: LightRecord) -> (l: Light)
    ensures
        l == light_of(r),
{
    match r {
        Ok(p) => Light::Point { position: p.0, color: p.1, power: p.2, radius: p.3 },
        Err(Ok(s)) => Light::Sun { direction: s.0, color: s.1, power: s.2 },
        Err(Err(s)) => Light::Spot {
            position: s.0,
            direction: s.1,
            color: s.2,
            power: s.3,
            radius: s.4,
            blend: s.5,
        },
    }
}

/// The record of a mesh.
pub fn mesh_record(m: &Mesh) -> (r: MeshRecord)
    ensures
        mesh_of(r) == m@,
{
    (
        copy_slice(m.positions()),
        copy_opt_slice(m.uvs()),
        copy_opt_slice(m.normals()),
        copy_opt_slice(m.colors()),
        copy_opt_slice(m.tangents()),
        copy_opt_slice(m.indices()),
        m.material(),
    )
}

/// The mesh of a record, right or not.
pub(crate) fn mesh_from(r: MeshRecord) -> (m: Mesh)
    ensures
        m@ == mesh_of(r),
{
    let (positions, uvs, normals, colors, tangents, indices, material) = r;
    Mesh::assemble(positions, uvs, normals, colors, tangents, indices, material)
}

/// The record of an image.
pub fn image_record(i: &Image) -> (r: ImageRecord)
    ensures
        image_of(r) == i@,
{
    (i.width(), i.height(), copy_slice(i.data()))
}

/// The image of a record.
pub fn image_from(r: ImageRecord) -> (i: Image)
    ensures
        i@ == image_of(r),
{
    let (width, height, data) = r;
    Image::new(width, height, data)
}

/// The meshes of a vector of records.
pub(crate) fn meshes_from(records: Vec<MeshRecord>) -> (out: Vec<Mesh>)
    ensures
        views(out@) == meshes_of(records@),
{
    let mut out: Vec<Mesh> = Vec::new();
    for record in it: records.into_iter()
        invariant
            it.seq() == records@,
            out@.len() == it.index(),
            forall|j: int| 0 <= j < out@.len() ==> (#[trigger] out@[j])@ == mesh_of(records@[j]),
    {
        out.push(mesh_from(record));
    }
    assert(views(out@) =~= meshes_of(records@));
    out
}

/// The materials of a vector of records.
pub(crate) fn materials_from(records: Vec<MaterialRecord>) -> (out: Vec<Material>)
    ensures
        views(out@) == materials_of(records@),
{
    let mut out: Vec<Material> = Vec::new();
    for record in it: records.into_iter()
        invariant
            it.seq() == records@,
            out@.len() == it.index(),
            forall|j: int|
                0 <= j < out@.len() ==> (#[trigger] out@[j])@ == material_of(records@[j]),
    {
        out.push(material_from(record));
    }
    assert(views(out@) =~= materials_of(records@));
    out
}

/// The lights of a vector of records.
pub(crate) fn lights_from(records: Vec<LightRecord>) -> (out: Vec<Light>)
    ensures
        out@ == lights_of(records@),
{
    let mut out: Vec<Light> = Vec::new();
    for record in it: records.into_iter()
        invariant
            it.seq() == records@,
            out@.len() == it.index(),
            forall|j: int| 0 <= j < out@.len() ==> #[trigger] out@[j] == light_of(records@[j]),
    {
        out.push(light_from(record));
    }
    assert(out@ =~= lights_of(records@));
    out
}

/// The images of a vector of records.
pub(crate) fn images_from(records: Vec<ImageRecord>) -> (out: Vec<Image>)
    ensures
        views(out@) == images_of(records@),
{
    let mut out: Vec<Image> = Vec::new();
    for record in it: records.into_iter()
        invariant
            it.seq() == records@,
            out@.len() == it.index(),
            forall|j: int| 0 <= j < out@.len() ==> (#[trigger] out@[j])@ == image_of(records@[j]),
    {
        out.push(image_from(record));
    }
    assert(views(out@) =~= images_of(records@));
    out
}

/// The records of a slice of meshes.
pub fn mesh_records(items: &[Mesh]) -> (out: Vec<MeshRecord>)
    ensures
        meshes_of(out@) == views(items@),
{
    let mut out: Vec<MeshRecord> = Vec::new();
    let mut i: usize = 0;
    while i < items.len()
        invariant
            i <= items@.len(),
            out@.len() == i,
            forall|j: int| 0 <= j < i ==> mesh_of(#[trigger] out@[j]) == items@[j]@,
        decreases items@.len() - i,
    {
        out.push(mesh_record(&items[i]));
        i += 1;
    }
    assert(meshes_of(out@) =~= views(items@));
    out
}

/// The records of a slice of materials.
pub fn material_records(items: &[Material]) -> (out: Vec<MaterialRecord>)
    ensures
        materials_of(out@) == views(items@),
{
    let mut out: Vec<MaterialRecord> = Vec::new();
    let mut i: usize = 0;
    while i < items.len()
        invariant
            i <= items@.len(),
            out@.len() == i,
            forall|j: int| 0 <= j < i ==> material_of(#[trigger] out@[j]) == items@[j]@,
        decreases items@.len() - i,
    {
        out.push(material_record(&items[i]));
        i += 1;
    }
    assert(materials_of(out@) =~= views(items@));
    out
}

/// The records of a slice of lights.
pub fn light_records(items: &[Light]) -> (out: Vec<LightRecord>)
    ensures
        lights_of(out@) == items@,
{
    let mut out: Vec<LightRecord> = Vec::new();
    let mut i: usize = 0;
    while i < items.len()
        invariant
            i <= items@.len(),
            out@.len() == i,
            forall|j: int| 0 <= j < i ==> light_of(#[trigger] out@[j]) == items@[j],
        decreases items@.len() - i,
    {
        out.push(light_record(&items[i]));
        i += 1;
    }
    assert(lights_of(out@) =~= items@);
    out
}

/// The records of a slice of images.
pub fn image_records(items: &[Image]) -> (out: Vec<ImageRecord>)
    ensures
        images_of(out@) == views(items@),
{
    let mut out: Vec<ImageRecord> = Vec::new();
    let mut i: usize = 0;
    while i < items.len()
        invariant
            i <= items@.len(),
            out@.len() == i,
            forall|j: int| 0 <= j < i ==> image_of(#[trigger] out@[j]) == items@[j]@,
        decreases items@.len() - i,
    {
        out.push(image_record(&items[i]));
        i += 1;
    }
    assert(images_of(out@) =~= views(items@));
    out
}

/// The record of a scene.
pub fn scene_record(scene: &Scene) -> (r: SceneRecord)
    ensures
        scene_of(r) == scene@,
{
    let meshes = match scene.meshes() {
        Some(items) => Some(mesh_records(items)),
        None => None,
    };
    let materials = match scene.materials() {
        Some(items) => Some(material_records(items)),
        None => None,
    };
    let lights = match scene.lights() {
        Some(items) => Some(light_records(items)),
        None => None,
    };
    let images = match scene.images() {
        Some(items) => Some(image_records(items)),
        None => None,
    };
    (meshes, materials, lights, images)
}

/// The scene of a record, as it is: no invariant is checked.
pub(crate) fn scene_from(r: SceneRecord) -> (scene: Scene)
    ensures
        scene@ == scene_of(r),
{
    let (meshes, materials, lights, images) = r;
    let meshes = match meshes {
        Some(records) => Some(meshes_from(records)),
        None => None,
    };
    let materials = match materials {
        Some(records) => Some(materials_from(records)),
        None => None,
    };
    let lights = match lights {
        Some(records) => Some(lights_from(records)),
        None => None,
    };
    let images = match images {
        Some(records) => Some(images_from(records)),
        None => None,
    };
    Scene::assemble(meshes, materials, lights, images)
}

/// The stored form holds offsets in 32 bits and is built in a buffer of at
/// most `isize::MAX - 15` bytes. A stored form of at most this many bytes
/// keeps within both, whatever the width of `usize`.
pub const STORED_MAX: usize = 0x7FFF_FFF0;

/// An upper bound on the bytes that a mesh takes in the stored form: each
/// item at its stored size, and 128 for the record itself (72) and the
/// padding in front of its six sequences (at most 3 each).
pub open spec fn mesh_extent(mesh: MeshView) -> nat {
    128 + 12 * mesh.positions.len() + 8 * count(mesh.uvs) + 12 * count(mesh.normals) + 12 * count(
        mesh.colors,
    ) + 16 * count(mesh.tangents) + 6 * count(mesh.indices)
}

/// An upper bound on the bytes that an image takes in the stored form: its
/// encoded bytes, and 32 for the record itself (16).
pub open spec fn image_extent(image: ImageView) -> nat {
    32 + image.data.len()
}

/// The sum of [`mesh_extent`] over a sequence.
pub open spec fn meshes_extent(meshes: Seq<MeshView>) -> nat
    decreases meshes.len(),
{
    if meshes.len() == 0 {
        0
    } else {
        meshes_extent(meshes.drop_last()) + mesh_extent(meshes.last())
    }
}

/// The sum of [`image_extent`] over a sequence.
pub open spec fn images_extent(images: Seq<ImageView>) -> nat
    decreases images.len(),
{
    if images.len() == 0 {
        0
    } else {
        images_extent(images.drop_last()) + image_extent(images.last())
    }
}

/// An upper bound on the length of the stored form of a scene: 64 for the
/// root record (48) and the padding around it, 64 for each material record
/// (40) and each light record (56), and the extents of the meshes and the
/// images.
pub open spec fn scene_extent(scene: SceneView) -> nat {
    64 + (match scene.meshes {
        Some(meshes) => meshes_extent(meshes),
        None => 0,
    }) + 64 * count(scene.materials) + 64 * count(scene.lights) + (match scene.images {
        Some(images) => images_extent(images),
        None => 0,
    })
}

/// Whether the scene can be brought into its stored form.
pub open spec fn storable(scene: SceneView) -> bool {
    scene_extent(scene) <= STORED_MAX
}

/// The extent of the first items of a sequence is at most the extent of the
/// whole.
pub proof fn lemma_meshes_extent_grows(meshes: Seq<MeshView>, n: int)
    requires
        0 <= n <= meshes.len(),
    ensures
        meshes_extent(meshes.take(n)) <= meshes_extent(meshes),
    decreases meshes.len() - n,
{
    if n < meshes.len() {
        lemma_meshes_extent_grows(meshes, n + 1);
        assert(meshes.take(n + 1).drop_last() =~= meshes.take(n));
    } else {
        assert(meshes.take(n) =~= meshes);
    }
}

/// The extent of the first items of a sequence is at most the extent of the
/// whole.
pub proof fn lemma_images_extent_grows(images: Seq<ImageView>, n: int)
    requires
        0 <= n <= images.len(),
    ensures
        images_extent(images.take(n)) <= images_extent(images),
    decreases images.len() - n,
{
    if n < images.len() {
        lemma_images_extent_grows(images, n + 1);
        assert(images.take(n + 1).drop_last() =~= images.take(n));
    } else {
        assert(images.take(n) =~= images);
    }
}

/// The extent of a mesh.
fn mesh_size(mesh: &Mesh) -> (n: u128)
    ensures
        n == mesh_extent(mesh@),
{
    128 + 12 * (mesh.positions().len() as u128) + 8 * (opt_slice_len(mesh.uvs()) as u128) + 12 * (
    opt_slice_len(mesh.normals()) as u128) + 12 * (opt_slice_len(mesh.colors()) as u128) + 16 * (
    opt_slice_len(mesh.tangents()) as u128) + 6 * (opt_slice_len(mesh.indices()) as u128)
}

/// The extent of the meshes, `None` where it is beyond [`STORED_MAX`].
fn meshes_size(items: &[Mesh]) -> (r: Option<u128>)
    ensures
        match r {
            Some(n) => n == meshes_extent(views(items@)) && n <= STORED_MAX,
            None => meshes_extent(views(items@)) > STORED_MAX,
        },
{
    let mut sum: u128 = 0;
    let mut i: usize = 0;
    while i < items.len()
        invariant
            i <= items@.len(),
            sum == meshes_extent(views(items@).take(i as int)),
            sum <= STORED_MAX,
        decreases items@.len() - i,
    {
        let size = mesh_size(&items[i]);
        proof {
            assert(views(items@).take(i + 1).drop_last() =~= views(items@).take(i as int));
            lemma_meshes_extent_grows(views(items@), i + 1);
        }
        if size > STORED_MAX as u128 || sum + size > STORED_MAX as u128 {
            return None;
        }
        sum = sum + size;
        i += 1;
    }
    assert(views(items@).take(i as int) =~= views(items@));
    Some(sum)
}

/// The extent of the images, `None` where it is beyond [`STORED_MAX`].
fn images_size(items: &[Image]) -> (r: Option<u128>)
    ensures
        match r {
            Some(n) => n == images_extent(views(items@)) && n <= STORED_MAX,
            None => images_extent(views(items@)) > STORED_MAX,
        },
{
    let mut sum: u128 = 0;
    let mut i: usize = 0;
    while i < items.len()
        invariant
            i <= items@.len(),
            sum == images_extent(views(items@).take(i as int)),
            sum <= STORED_MAX,
        decreases items@.len() - i,
    {
        let size: u128 = 32 + (items[i].data().len() as u128);
        proof {
            assert(views(items@).take(i + 1).drop_last() =~= views(items@).take(i as int));
            lemma_images_extent_grows(views(items@), i + 1);
        }
        if size > STORED_MAX as u128 || sum + size > STORED_MAX as u128 {
            return None;
        }
        sum = sum + size;
        i += 1;
    }
    assert(views(items@).take(i as int) =~= views(items@));
    Some(sum)
}

/// The extent of the scene, `None` where it is beyond [`STORED_MAX`]: the
/// scene is then too large to be stored.
pub fn stored_size(scene: &Scene) -> (r: Option<usize>)
    ensures
        match r {
            Some(n) => n == scene_extent(scene@) && storable(scene@),
            None => !storable(scene@),
        },
{
    let meshes: u128 = match scene.meshes() {
        None => 0,
        Some(items) => match meshes_size(items) {
            Some(n) => n,
            None => {
                return None;
            },
        },
    };
    let images: u128 = match scene.images() {
        None => 0,
        Some(items) => match images_size(items) {
            Some(n) => n,
            None => {
                return None;
            },
        },
    };
    let materials: u128 = 64 * (opt_slice_len(scene.materials()) as u128);
    let lights: u128 = 64 * (opt_slice_len(scene.lights()) as u128);
    let total: u128 = 64 + meshes + materials + lights + images;
    if total > STORED_MAX as u128 {
        None
    } else {
        Some(total as usize)
    }
}

/// The bytes that `rkyv::to_bytes` returns for the record of a scene that is
/// [`storable`].
pub uninterp spec fn rkyv_archived(scene: SceneView) -> Seq<u8>;

/// The scene whose record `rkyv::from_bytes` reads from `bytes` once they
/// stand at an address that is a multiple of 16, `None` where it refuses
/// them.
pub uninterp spec fn rkyv_restored(bytes: Seq<u8>) -> Option<SceneView>;

/// Calls `rkyv::to_bytes`. Trusted, for a record whose scene is
/// [`storable`]:
/// - the call returns bytes: it writes into a vector through the crate's
///   arena, neither of which gives an error, and the record holds no shared
///   pointer; `None` stands for the error that does not come;
/// - the bytes are a function of the scene that the record stands for and
///   are no more than [`scene_extent`] says, so that every offset fits its 32
///   bits;
/// - as the crate documents for the pair, `rkyv::from_bytes` reads the same
///   record back from them.
#[verifier::external_body]
pub(crate) fn rkyv_encode(record: &SceneRecord) -> (r: Option<Vec<u8>>)
    requires
        storable(scene_of(*record)),
    ensures
        r is Some,
        r matches Some(bytes) ==> bytes@ == rkyv_archived(scene_of(*record)),
        r matches Some(bytes) ==> bytes@.len() <= scene_extent(scene_of(*record)),
        r matches Some(bytes) ==> rkyv_restored(bytes@) == Some(scene_of(*record)),
{
    rkyv::to_bytes::<rkyv::rancor::Error>(record).ok().map(|bytes| bytes.into_vec())
}

/// Calls `rkyv::from_bytes`, which checks the bytes before it reads them, on
/// a copy of `bytes` aligned to 16. Trusted: for a buffer that the aligned
/// copy can hold the call returns, and the result is a function of the
/// bytes. `None` stands for each of the crate's errors.
#[verifier::external_body]
pub(crate) fn rkyv_decode(bytes: &[u8]) -> (r: Option<SceneRecord>)
    requires
        bytes@.len() <= STORED_MAX,
    ensures
        match r {
            Some(record) => rkyv_restored(bytes@) == Some(scene_of(record)),
            None => rkyv_restored(bytes@) is None,
        },
{
    let mut aligned = rkyv::util::AlignedVec::<16>::new();
    aligned.extend_from_slice(bytes);
    rkyv::from_bytes::<SceneRecord, rkyv::rancor::Error>(&aligned).ok()
}

} // verus!
