//! The scene: four optional sequences and the references between them.

use crate::archive::{
    rkyv_archived, rkyv_decode, rkyv_encode, rkyv_restored, scene_from, scene_of, scene_record,
    storable, stored_size, SceneRecord, STORED_MAX,
};
use crate::file::{
    lemma_unframe_frame, seal, seals, unframed, unseal, unsealed, FrameError, HEADER_LEN,
};
use crate::image::{qoi_decoded, CodecError, Image, ImageView};
use crate::light::Light;
use crate::material::{lemma_max_texture_decides, Material, MaterialView};
use crate::mesh::{Mesh, MeshView};
use crate::seqs::{
    appended, as_opt_slice, count, lemma_views_push, opt_len, opt_seq, opt_slice_seq,
    opt_slice_views, opt_views, views,
};
use vstd::prelude::*;

verus! {

/// Which invariant of a scene is broken.
#[derive(Clone, Copy, Debug, PartialEq, Eq)]
pub enum ValidationError {
    /// A material names a texture index that is not below the number of
    /// images.
    TextureIndexOutOfRange,
    /// A mesh names a material index that is not below the number of
    /// materials.
    MaterialIndexOutOfRange,
    /// A per-vertex sequence of a mesh differs in length from its positions.
    AttributeLengthMismatch,
    /// The handedness of a tangent is neither `1.0` nor `-1.0`.
    BadTangentHandedness,
}

/// A scene. Each of the four sequences may be absent, which is not the same
/// as empty.
#[derive(Debug, PartialEq, Eq)]
pub struct Scene {
    meshes: Option<Vec<Mesh>>,
    materials: Option<Vec<Material>>,
    lights: Option<Vec<Light>>,
    images: Option<Vec<Image>>,
}

/// The mathematical value of a [`Scene`].
pub struct SceneView {
    pub meshes: Option<Seq<MeshView>>,
    pub materials: Option<Seq<MaterialView>>,
    pub lights: Option<Seq<Light>>,
    pub images: Option<Seq<ImageView>>,
}

impl View for Scene {
    type V = SceneView;

    closed spec fn view(&self) -> SceneView {
        SceneView {
            meshes: opt_views(self.meshes),
            materials: opt_views(self.materials),
            lights: opt_seq(self.lights),
            images: opt_views(self.images),
        }
    }
}

/// Whether every material names only texture indices below `images`.
pub open spec fn textures_within(materials: Seq<MaterialView>, images: nat) -> bool {
    forall|i: int| 0 <= i < materials.len() ==> (#[trigger] materials[i]).textures_within(images)
}

/// Whether every mesh names a material index below `materials`, or none.
pub open spec fn materials_within(meshes: Seq<MeshView>, materials: nat) -> bool {
    forall|i: int| 0 <= i < meshes.len() ==> (#[trigger] meshes[i]).material_within(materials)
}

/// Whether the per-vertex sequences of every mesh agree in length.
pub open spec fn lengths_agree(meshes: Seq<MeshView>) -> bool {
    forall|i: int| 0 <= i < meshes.len() ==> (#[trigger] meshes[i]).lengths_agree()
}

/// Whether the tangents of every mesh have a handedness of `1.0` or `-1.0`.
pub open spec fn tangents_signed(meshes: Seq<MeshView>) -> bool {
    forall|i: int| 0 <= i < meshes.len() ==> (#[trigger] meshes[i]).tangents_signed()
}

impl SceneView {
    /// The number of images, none where the sequence is absent.
    pub open spec fn image_count(self) -> nat {
        count(self.images)
    }

    /// The number of materials, none where the sequence is absent.
    pub open spec fn material_count(self) -> nat {
        count(self.materials)
    }

    /// The first invariant that the scene breaks, in the order in which they
    /// are checked: texture indices, material indices, attribute lengths,
    /// tangent handedness. `None` where it breaks none.
    pub open spec fn fault(self) -> Option<ValidationError> {
        if self.materials matches Some(m) && !textures_within(m, self.image_count()) {
            Some(ValidationError::TextureIndexOutOfRange)
        } else if self.meshes matches Some(m) && !materials_within(m, self.material_count()) {
            Some(ValidationError::MaterialIndexOutOfRange)
        } else if self.meshes matches Some(m) && !lengths_agree(m) {
            Some(ValidationError::AttributeLengthMismatch)
        } else if self.meshes matches Some(m) && !tangents_signed(m) {
            Some(ValidationError::BadTangentHandedness)
        } else {
            None
        }
    }

    /// Whether every reference of the scene is in range and every mesh is
    /// right.
    pub open spec fn valid(self) -> bool {
        self.fault() is None
    }

    /// The scene with one more mesh.
    pub open spec fn with_mesh(self, mesh: MeshView) -> SceneView {
        SceneView { meshes: appended(self.meshes, mesh), ..self }
    }

    /// The scene with one more material.
    pub open spec fn with_material(self, material: MaterialView) -> SceneView {
        SceneView { materials: appended(self.materials, material), ..self }
    }

    /// The scene with one more light.
    pub open spec fn with_light(self, light: Light) -> SceneView {
        SceneView { lights: appended(self.lights, light), ..self }
    }

    /// The scene with one more image.
    pub open spec fn with_image(self, image: ImageView) -> SceneView {
        SceneView { images: appended(self.images, image), ..self }
    }
}

/// Whether some material names a texture index that is not below `images`.
fn some_texture_beyond(materials: &Vec<Material>, images: usize) -> (found: bool)
    ensures
        found == !textures_within(views(materials@), images as nat),
{
    let mut i: usize = 0;
    while i < materials.len()
        invariant
            i <= materials@.len(),
            forall|j: int|
                0 <= j < i ==> (#[trigger] views(materials@)[j]).textures_within(images as nat),
        decreases materials@.len() - i,
    {
        proof {
            lemma_max_texture_decides(materials@[i as int]@, images as nat);
        }
        match materials[i].max_texture_idx() {
            Some(max) => {
                if max as usize >= images {
                    assert(!views(materials@)[i as int].textures_within(images as nat));
                    return true;
                }
            },
            None => {},
        }
        i += 1;
    }
    false
}

/// Whether some mesh names a material index that is not below `materials`.
fn some_material_beyond(meshes: &Vec<Mesh>, materials: usize) -> (found: bool)
    ensures
        found == !materials_within(views(meshes@), materials as nat),
{
    let mut i: usize = 0;
    while i < meshes.len()
        invariant
            i <= meshes@.len(),
            forall|j: int|
                0 <= j < i ==> (#[trigger] views(meshes@)[j]).material_within(materials as nat),
        decreases meshes@.len() - i,
    {
        match meshes[i].material() {
            Some(index) => {
                if index as usize >= materials {
                    assert(!views(meshes@)[i as int].material_within(materials as nat));
                    return true;
                }
            },
            None => {},
        }
        i += 1;
    }
    false
}

/// Whether some mesh has a per-vertex sequence of another length than its
/// positions.
fn some_lengths_differ(meshes: &Vec<Mesh>) -> (found: bool)
    ensures
        found == !lengths_agree(views(meshes@)),
{
    let mut i: usize = 0;
    while i < meshes.len()
        invariant
            i <= meshes@.len(),
            forall|j: int| 0 <= j < i ==> (#[trigger] views(meshes@)[j]).lengths_agree(),
        decreases meshes@.len() - i,
    {
        if meshes[i].lengths_differ() {
            assert(!views(meshes@)[i as int].lengths_agree());
            return true;
        }
        i += 1;
    }
    false
}

/// Whether some mesh has a tangent whose handedness is neither `1.0` nor
/// `-1.0`.
fn some_tangent_unsigned(meshes: &Vec<Mesh>) -> (found: bool)
    ensures
        found == !tangents_signed(views(meshes@)),
{
    let mut i: usize = 0;
    while i < meshes.len()
        invariant
            i <= meshes@.len(),
            forall|j: int| 0 <= j < i ==> (#[trigger] views(meshes@)[j]).tangents_signed(),
        decreases meshes@.len() - i,
    {
        if meshes[i].tangents_unsigned() {
            assert(!views(meshes@)[i as int].tangents_signed());
            return true;
        }
        i += 1;
    }
    false
}

/// The one validation routine: the first invariant that the parts break.
fn fault_of(
    meshes: &Option<Vec<Mesh>>,
    materials: &Option<Vec<Material>>,
    lights: &Option<Vec<Light>>,
    images: &Option<Vec<Image>>,
) -> (fault: Option<ValidationError>)
    ensures
        fault == (SceneView {
            meshes: opt_views(*meshes),
            materials: opt_views(*materials),
            lights: opt_seq(*lights),
            images: opt_views(*images),
        }).fault(),
{
    let tex = opt_len(images);
    let mat = opt_len(materials);
    if let Some(m) = materials {
        if some_texture_beyond(m, tex) {
            return Some(ValidationError::TextureIndexOutOfRange);
        }
    }
    if let Some(m) = meshes {
        if some_material_beyond(m, mat) {
            return Some(ValidationError::MaterialIndexOutOfRange);
        }
        if some_lengths_differ(m) {
            return Some(ValidationError::AttributeLengthMismatch);
        }
        if some_tangent_unsigned(m) {
            return Some(ValidationError::BadTangentHandedness);
        }
    }
    None
}

impl Scene {
    /// Appends `item`; an absent sequence becomes a sequence of one.
    fn add<T>(items: &mut Option<Vec<T>>, item: T)
        ensures
            opt_seq(*final(items)) == appended(opt_seq(*old(items)), item),
    {
        if let Some(v) = items {
            v.push(item);
        } else {
            let mut v: Vec<T> = Vec::new();
            v.push(item);
            assert(v@ =~= seq![item]);
            *items = Some(v);
        }
    }

    /// Builds a scene, or says which invariant the parts break.
    pub fn try_new(
        meshes: Option<Vec<Mesh>>,
        materials: Option<Vec<Material>>,
        lights: Option<Vec<Light>>,
        images: Option<Vec<Image>>,
    ) -> (r: Result<Scene, ValidationError>)
        ensures
            ({
                let parts = SceneView {
                    meshes: opt_views(meshes),
                    materials: opt_views(materials),
                    lights: opt_seq(lights),
                    images: opt_views(images),
                };
                match r {
                    Ok(scene) => scene@ == parts && parts.valid(),
                    Err(e) => parts.fault() == Some(e),
                }
            }),
    {
        match fault_of(&meshes, &materials, &lights, &images) {
            Some(e) => Err(e),
            None => Ok(Scene { meshes, materials, lights, images }),
        }
    }

    /// Builds a scene, `None` where the parts break an invariant.
    pub fn new(
        meshes: Option<Vec<Mesh>>,
        materials: Option<Vec<Material>>,
        lights: Option<Vec<Light>>,
        images: Option<Vec<Image>>,
    ) -> (r: Option<Scene>)
        ensures
            ({
                let parts = SceneView {
                    meshes: opt_views(meshes),
                    materials: opt_views(materials),
                    lights: opt_seq(lights),
                    images: opt_views(images),
                };
                match r {
                    Some(scene) => scene@ == parts && parts.valid(),
                    None => !parts.valid(),
                }
            }),
    {
        match Scene::try_new(meshes, materials, lights, images) {
            Ok(scene) => Some(scene),
            Err(_) => None,
        }
    }

    /// Builds a scene from its parts as they are, without a check.
    pub(crate) fn assemble(
        meshes: Option<Vec<Mesh>>,
        materials: Option<Vec<Material>>,
        lights: Option<Vec<Light>>,
        images: Option<Vec<Image>>,
    ) -> (scene: Scene)
        ensures
            scene@ == (SceneView {
                meshes: opt_views(meshes),
                materials: opt_views(materials),
                lights: opt_seq(lights),
                images: opt_views(images),
            }),
    {
        Scene { meshes, materials, lights, images }
    }

    /// The first invariant that this scene breaks, `None` where it is valid.
    pub fn fault(&self) -> (fault: Option<ValidationError>)
        ensures
            fault == self@.fault(),
    {
        fault_of(&self.meshes, &self.materials, &self.lights, &self.images)
    }

    pub fn meshes(&self) -> (items: Option<&[Mesh]>)
        ensures
            opt_slice_views(items) == self@.meshes,
    {
        as_opt_slice(&self.meshes)
    }

    pub fn materials(&self) -> (items: Option<&[Material]>)
        ensures
            opt_slice_views(items) == self@.materials,
    {
        as_opt_slice(&self.materials)
    }

    pub fn lights(&self) -> (items: Option<&[Light]>)
        ensures
            opt_slice_seq(items) == self@.lights,
    {
        as_opt_slice(&self.lights)
    }

    pub fn images(&self) -> (items: Option<&[Image]>)
        ensures
            opt_slice_views(items) == self@.images,
    {
        as_opt_slice(&self.images)
    }

    /// Appends a mesh.
    pub fn add_mesh(&mut self, mesh: Mesh)
        ensures
            final(self)@ == old(self)@.with_mesh(mesh@),
    {
        proof {
            lemma_views_push(opt_seq(self.meshes).unwrap_or(Seq::empty()), mesh);
        }
        Self::add(&mut self.meshes, mesh);
    }

    /// Appends a material.
    pub fn add_material(&mut self, material: Material)
        ensures
            final(self)@ == old(self)@.with_material(material@),
    {
        proof {
            lemma_views_push(opt_seq(self.materials).unwrap_or(Seq::empty()), material);
        }
        Self::add(&mut self.materials, material);
    }

    /// Appends a light.
    pub fn add_light(&mut self, light: Light)
        ensures
            final(self)@ == old(self)@.with_light(light),
    {
        Self::add(&mut self.lights, light);
    }

    /// Appends an image.
    pub fn add_image(&mut self, image: Image)
        ensures
            final(self)@ == old(self)@.with_image(image@),
    {
        proof {
            lemma_views_push(opt_seq(self.images).unwrap_or(Seq::empty()), image);
        }
        Self::add(&mut self.images, image);
    }
}

/// Why bytes could not be read as a scene.
#[derive(Clone, Copy, Debug, PartialEq, Eq)]
pub enum LoadError {
    /// One of the two envelopes could not be opened.
    Frame(FrameError),
    /// The payload is not the stored form of a scene.
    Payload,
    /// The stored scene breaks an invariant.
    Invalid(ValidationError),
}

/// Why a scene could not be written.
#[derive(Clone, Copy, Debug, PartialEq, Eq)]
pub enum SaveError {
    /// There is no stored form to seal.
    Serialize,
    /// The scene is too large for the stored form, or the sealed bytes would
    /// be longer than a buffer can be.
    TooLarge,
}

/// What becomes of a scene that was read: in checked mode it is refused
/// where it breaks an invariant; otherwise it is taken as it is.
pub open spec fn admitted(scene: SceneView, checked: bool) -> Result<SceneView, LoadError> {
    if checked && scene.fault() is Some {
        Err(LoadError::Invalid(scene.fault().unwrap()))
    } else {
        Ok(scene)
    }
}

/// The scene that `bytes` hold: both envelopes are opened, the payload is
/// read as a scene, and the scene is admitted. A payload longer than a stored
/// form can be is no scene.
pub open spec fn read(bytes: Seq<u8>, checked: bool) -> Result<SceneView, LoadError> {
    match unsealed(bytes) {
        Err(e) => Err(LoadError::Frame(e)),
        Ok(payload) => if payload.len() > STORED_MAX {
            Err(LoadError::Payload)
        } else {
            match rkyv_restored(payload) {
                None => Err(LoadError::Payload),
                Some(scene) => admitted(scene, checked),
            }
        },
    }
}

/// The mathematical value of a result that holds a scene.
pub open spec fn scene_outcome<E>(r: Result<Scene, E>) -> Result<SceneView, E> {
    match r {
        Ok(scene) => Ok(scene@),
        Err(e) => Err(e),
    }
}

/// Seals the stored form of a scene, `None` standing for a scene that could
/// not be brought into that form. Unsealing the result gives the stored form
/// back.
pub fn enclose(archived: Option<Vec<u8>>) -> (r: Result<Vec<u8>, SaveError>)
    ensures
        match archived {
            None => r == Err::<Vec<u8>, SaveError>(SaveError::Serialize),
            Some(payload) => if payload@.len() + 2 * HEADER_LEN <= usize::MAX {
                r matches Ok(bytes) && seals(bytes@, payload@) && unsealed(bytes@) == Ok::<
                    Seq<u8>,
                    FrameError,
                >(payload@)
            } else {
                r == Err::<Vec<u8>, SaveError>(SaveError::TooLarge)
            },
        },
{
    match archived {
        None => Err(SaveError::Serialize),
        Some(payload) => match seal(payload.as_slice()) {
            Ok(bytes) => Ok(bytes),
            Err(_) => Err(SaveError::TooLarge),
        },
    }
}

impl Scene {
    /// The scene of a record, or the invariant that it breaks.
    pub fn from_record(record: SceneRecord) -> (r: Result<Scene, ValidationError>)
        ensures
            match r {
                Ok(scene) => scene@ == scene_of(record) && scene@.valid(),
                Err(e) => scene_of(record).fault() == Some(e),
            },
    {
        let scene = scene_from(record);
        match scene.fault() {
            Some(e) => Err(e),
            None => Ok(scene),
        }
    }

    /// The scene of a record, as it is. For records that are known to hold a
    /// valid scene.
    pub fn from_record_unchecked(record: SceneRecord) -> (scene: Scene)
        ensures
            scene@ == scene_of(record),
    {
        scene_from(record)
    }

    /// Reads a scene from its stored bytes and checks its invariants. This is
    /// the mode for bytes of unknown origin.
    pub fn read(data: &[u8]) -> (r: Result<Scene, LoadError>)
        ensures
            scene_outcome(r) == read(data@, true),
            r matches Ok(scene) ==> scene@.valid(),
    {
        let payload = match unseal(data) {
            Ok(payload) => payload,
            Err(e) => {
                return Err(LoadError::Frame(e));
            },
        };
        if payload.len() > STORED_MAX {
            return Err(LoadError::Payload);
        }
        match rkyv_decode(payload.as_slice()) {
            None => Err(LoadError::Payload),
            Some(record) => match Scene::from_record(record) {
                Ok(scene) => Ok(scene),
                Err(e) => Err(LoadError::Invalid(e)),
            },
        }
    }

    /// Reads a scene from its stored bytes without a check of its invariants.
    /// For bytes that this library wrote from a valid scene.
    pub fn read_unchecked(data: &[u8]) -> (r: Result<Scene, LoadError>)
        ensures
            scene_outcome(r) == read(data@, false),
    {
        let payload = match unseal(data) {
            Ok(payload) => payload,
            Err(e) => {
                return Err(LoadError::Frame(e));
            },
        };
        if payload.len() > STORED_MAX {
            return Err(LoadError::Payload);
        }
        match rkyv_decode(payload.as_slice()) {
            None => Err(LoadError::Payload),
            Some(record) => Ok(Scene::from_record_unchecked(record)),
        }
    }

    /// [`Scene::read`], `None` standing for each error.
    pub fn load(data: &[u8]) -> (r: Option<Scene>)
        ensures
            match r {
                Some(scene) => read(data@, true) == Ok::<SceneView, LoadError>(scene@)
                    && scene@.valid(),
                None => read(data@, true) is Err,
            },
    {
        match Scene::read(data) {
            Ok(scene) => Some(scene),
            Err(_) => None,
        }
    }

    /// [`Scene::read_unchecked`], `None` standing for each error.
    pub fn load_unchecked(data: &[u8]) -> (r: Option<Scene>)
        ensures
            match r {
                Some(scene) => read(data@, false) == Ok::<SceneView, LoadError>(scene@),
                None => read(data@, false) is Err,
            },
    {
        match Scene::read_unchecked(data) {
            Ok(scene) => Some(scene),
            Err(_) => None,
        }
    }

    /// The bytes to write for this scene: its stored form, sealed. A scene
    /// is saved exactly where it is small enough to be stored. Reading the
    /// bytes gives the scene back, in unchecked mode always and in checked
    /// mode where the scene is valid.
    pub fn save(&self) -> (r: Result<Vec<u8>, SaveError>)
        ensures
            match r {
                Ok(bytes) => {
                    &&& storable(self@)
                    &&& seals(bytes@, rkyv_archived(self@))
                    &&& read(bytes@, false) == Ok::<SceneView, LoadError>(self@)
                    &&& self@.valid() ==> read(bytes@, true) == Ok::<SceneView, LoadError>(self@)
                },
                Err(e) => e == SaveError::TooLarge && !storable(self@),
            },
    {
        if stored_size(self).is_none() {
            return Err(SaveError::TooLarge);
        }
        let record = scene_record(self);
        enclose(rkyv_encode(&record))
    }

    /// The raw channel bytes of every image, in order; `None` where there
    /// are no images or where one of them cannot be decoded.
    pub fn decode_images(&self) -> (r: Option<Vec<Vec<u8>>>)
        ensures
            match r {
                Some(raws) => self@.images matches Some(images) && raws@.len() == images.len()
                    && forall|i: int|
                    0 <= i < images.len() ==> qoi_decoded(images[i].data) == Ok::<
                        Seq<u8>,
                        CodecError,
                    >(#[trigger] raws@[i]@),
                None => self@.images matches Some(images) ==> exists|i: int|
                    0 <= i < images.len() && qoi_decoded(#[trigger] images[i].data) is Err,
            },
    {
        match &self.images {
            None => None,
            Some(images) => {
                let mut raws: Vec<Vec<u8>> = Vec::new();
                let mut i: usize = 0;
                while i < images.len()
                    invariant
                        self.images == Some(*images),
                        i <= images@.len(),
                        raws@.len() == i,
                        forall|j: int|
                            0 <= j < i ==> qoi_decoded(images@[j]@.data) == Ok::<
                                Seq<u8>,
                                CodecError,
                            >(#[trigger] raws@[j]@),
                    decreases images@.len() - i,
                {
                    match images[i].decode() {
                        Ok(raw) => raws.push(raw),
                        Err(_) => {
                            proof {
                                let all = self@.images.unwrap();
                                assert(all == views(images@));
                                assert(0 <= i < all.len() && qoi_decoded(all[i as int].data) is Err);
                            }
                            return None;
                        },
                    }
                    i += 1;
                }
                assert forall|j: int| 0 <= j < images@.len() implies qoi_decoded(
                    views(images@)[j].data,
                ) == Ok::<Seq<u8>, CodecError>(#[trigger] raws@[j]@) by {}
                Some(raws)
            },
        }
    }
}

/// Reading the stored bytes of a scene gives the scene back: in unchecked
/// mode always, in checked mode where the scene is valid; an invalid scene
/// is refused in checked mode with its first fault.
pub proof fn lemma_stored_scene_reads_back(bytes: Seq<u8>, payload: Seq<u8>, scene: SceneView)
    requires
        seals(bytes, payload),
        payload.len() <= STORED_MAX,
        rkyv_restored(payload) == Some(scene),
    ensures
        read(bytes, false) == Ok::<SceneView, LoadError>(scene),
        scene.valid() ==> read(bytes, true) == Ok::<SceneView, LoadError>(scene),
        scene.fault() matches Some(e) ==> read(bytes, true) == Err::<SceneView, LoadError>(
            LoadError::Invalid(e),
        ),
{
    let inner = unframed(bytes).unwrap();
    lemma_unframe_frame(inner, payload);
}

/// Appending keeps a valid scene valid wherever the new item's own
/// references are in range: a light or an image always, a material whose
/// texture indices are below the number of images, a right mesh whose
/// material index is below the number of materials.
pub proof fn lemma_appending_keeps_valid(
    scene: SceneView,
    mesh: MeshView,
    material: MaterialView,
    light: Light,
    image: ImageView,
)
    requires
        scene.valid(),
    ensures
        scene.with_light(light).valid(),
        scene.with_image(image).valid(),
        material.textures_within(scene.image_count()) ==> scene.with_material(material).valid(),
        mesh.is_right() && mesh.material_within(scene.material_count()) ==> scene.with_mesh(
            mesh,
        ).valid(),
{
    let more_images = scene.with_image(image);
    assert(more_images.image_count() == scene.image_count() + 1);
    if let Some(m) = scene.materials {
        assert forall|i: int| 0 <= i < m.len() implies (#[trigger] m[i]).textures_within(
            more_images.image_count(),
        ) by {
            assert(m[i].textures_within(scene.image_count()));
        }
    }
    if material.textures_within(scene.image_count()) {
        let more = scene.with_material(material);
        assert(more.material_count() == scene.material_count() + 1);
        if let Some(m) = scene.meshes {
            assert forall|i: int| 0 <= i < m.len() implies (#[trigger] m[i]).material_within(
                more.material_count(),
            ) by {
                assert(m[i].material_within(scene.material_count()));
            }
        }
    }
}

} // verus!
