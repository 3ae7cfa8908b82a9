use rnm_3d::archive::{
    image_from, image_record, light_from, light_record, material_from, material_record,
    mesh_record, mre_from, mre_record, scene_record, uniform_from, uniform_record, MeshRecord,
    SceneRecord,
};
use rnm_3d::file::{frame, seal, unseal, FrameError};
use rnm_3d::scene::{enclose, LoadError, SaveError, ValidationError};
use rnm_3d::{Image, Light, Material, Mesh, Mre, Scene, Uniform};

fn f(x: f32) -> u32 {
    x.to_bits()
}

fn v3(x: f32, y: f32, z: f32) -> [u32; 3] {
    [f(x), f(y), f(z)]
}

fn square() -> Vec<[u32; 3]> {
    vec![v3(0.0, 0.0, 0.0), v3(1.0, 0.0, 0.0), v3(1.0, 1.0, 0.0), v3(0.0, 1.0, 0.0)]
}

fn image() -> Image {
    Image::from_raw(1, 1, &[255, 0, 0]).unwrap()
}

fn images(n: usize) -> Vec<Image> {
    (0..n).map(|_| image()).collect()
}

fn plain_material() -> Material {
    Material::new(Uniform::Color(v3(0.5, 0.5, 0.5)), Mre::default(), None, f(0.5))
}

fn mesh_with_material(material: Option<u8>) -> Mesh {
    Mesh::new(square(), None, None, None, None, Some(vec![[0, 1, 2]]), material).unwrap()
}

fn sun() -> Light {
    Light::Sun { direction: v3(0.0, -1.0, 0.0), color: v3(1.0, 1.0, 1.0), power: f(3.0) }
}

fn bare_mesh_record() -> MeshRecord {
    (square(), None, None, None, None, None, None)
}

fn full_scene() -> Scene {
    let tangents = vec![[f(1.0), f(0.0), f(0.0), f(-1.0)]; 4];
    let mesh = Mesh::new(
        square(),
        Some(vec![[f(0.0), f(1.0)]; 4]),
        Some(vec![v3(0.0, 0.0, 1.0); 4]),
        Some(vec![v3(1.0, 0.0, 0.0); 4]),
        Some(tangents),
        Some(vec![[0, 1, 2], [0, 2, 3]]),
        Some(1),
    )
    .unwrap();
    let materials = vec![
        plain_material(),
        Material::new(Uniform::Texture(1), Mre::Texture(0), Some(2), f(0.25)),
    ];
    let lights = vec![
        Light::Point {
            position: v3(1.0, 2.0, 3.0),
            color: v3(0.1, 0.2, 0.3),
            power: f(10.0),
            radius: f(0.5),
        },
        sun(),
        Light::Spot {
            position: v3(1.0, 2.0, 3.0),
            direction: v3(0.0, 0.0, 1.0),
            color: v3(0.7, 0.8, 0.9),
            power: f(30.0),
            radius: f(0.25),
            blend: f(0.15),
        },
    ];
    Scene::new(
        Some(vec![mesh, mesh_with_material(None)]),
        Some(materials),
        Some(lights),
        Some(images(3)),
    )
    .unwrap()
}

#[test]
fn dangling_texture_index_is_rejected() {
    let material = Material::new(Uniform::Texture(5), Mre::default(), None, f(0.5));
    assert_eq!(Scene::new(None, Some(vec![material]), None, Some(images(3))), None);
    assert_eq!(
        Scene::try_new(None, Some(vec![material]), None, Some(images(3))),
        Err(ValidationError::TextureIndexOutOfRange)
    );
}

#[test]
fn dangling_texture_index_is_rejected_by_validated_load() {
    let material = material_record(&Material::new(
        Uniform::Texture(5),
        Mre::default(),
        None,
        f(0.5),
    ));
    let pictures = images(3).iter().map(image_record).collect();
    let record: SceneRecord = (None, Some(vec![material]), None, Some(pictures));
    let scene = Scene::from_record_unchecked(record);
    assert_eq!(scene.fault(), Some(ValidationError::TextureIndexOutOfRange));
    let bytes = scene.save().unwrap();
    assert_eq!(Scene::load(&bytes), None);
    assert_eq!(
        Scene::read(&bytes),
        Err(LoadError::Invalid(ValidationError::TextureIndexOutOfRange))
    );
    assert_eq!(Scene::load_unchecked(&bytes), Some(scene));
}

#[test]
fn texture_index_is_checked_in_each_field() {
    let in_range = Material::new(Uniform::Texture(2), Mre::Texture(2), Some(2), f(0.5));
    assert!(Scene::new(None, Some(vec![in_range]), None, Some(images(3))).is_some());
    for bad in [
        Material::new(Uniform::Texture(3), Mre::Texture(0), Some(0), f(0.5)),
        Material::new(Uniform::Texture(0), Mre::Texture(3), Some(0), f(0.5)),
        Material::new(Uniform::Texture(0), Mre::Texture(0), Some(3), f(0.5)),
    ] {
        assert_eq!(
            Scene::try_new(None, Some(vec![in_range, bad]), None, Some(images(3))),
            Err(ValidationError::TextureIndexOutOfRange)
        );
    }
    // with no images every texture index dangles
    let zero = Material::new(Uniform::Texture(0), Mre::default(), None, f(0.5));
    assert_eq!(
        Scene::try_new(None, Some(vec![zero]), None, None),
        Err(ValidationError::TextureIndexOutOfRange)
    );
    assert_eq!(
        Scene::try_new(None, Some(vec![zero]), None, Some(vec![])),
        Err(ValidationError::TextureIndexOutOfRange)
    );
}

#[test]
fn dangling_material_index_is_rejected() {
    let mesh = mesh_with_material(Some(2));
    assert_eq!(Scene::new(Some(vec![mesh]), Some(vec![plain_material()]), None, None), None);
    let mesh = mesh_with_material(Some(2));
    assert_eq!(
        Scene::try_new(Some(vec![mesh]), Some(vec![plain_material()]), None, None),
        Err(ValidationError::MaterialIndexOutOfRange)
    );
    let mesh = mesh_with_material(Some(0));
    assert_eq!(
        Scene::try_new(Some(vec![mesh]), None, None, None),
        Err(ValidationError::MaterialIndexOutOfRange)
    );
    let mesh = mesh_with_material(Some(0));
    assert!(Scene::new(Some(vec![mesh]), Some(vec![plain_material()]), None, None).is_some());
}

#[test]
fn texture_fault_comes_before_material_fault() {
    let material = Material::new(Uniform::Texture(0), Mre::default(), None, f(0.5));
    assert_eq!(
        Scene::try_new(Some(vec![mesh_with_material(Some(9))]), Some(vec![material]), None, None),
        Err(ValidationError::TextureIndexOutOfRange)
    );
}

#[test]
fn a_stored_mesh_with_mismatched_attributes_is_rejected() {
    let mut mesh = bare_mesh_record();
    mesh.2 = Some(vec![v3(0.0, 0.0, 1.0); 3]);
    let record: SceneRecord = (Some(vec![bare_mesh_record(), mesh]), None, None, None);
    assert_eq!(Scene::from_record(record), Err(ValidationError::AttributeLengthMismatch));
}

#[test]
fn a_stored_mesh_with_a_bad_tangent_is_rejected() {
    let mut mesh = bare_mesh_record();
    mesh.4 = Some(vec![[f(1.0), f(0.0), f(0.0), f(0.5)]; 4]);
    let record: SceneRecord = (Some(vec![mesh]), None, None, None);
    assert_eq!(Scene::from_record(record), Err(ValidationError::BadTangentHandedness));
    let mut mesh = bare_mesh_record();
    mesh.4 = Some(vec![[f(1.0), f(0.0), f(0.0), f(-1.0)]; 4]);
    let record: SceneRecord = (Some(vec![mesh]), None, None, None);
    assert!(Scene::from_record(record).is_ok());
}

#[test]
fn length_fault_comes_before_tangent_fault() {
    let mut unsigned = bare_mesh_record();
    unsigned.4 = Some(vec![[f(1.0), f(0.0), f(0.0), f(0.5)]; 4]);
    let mut short = bare_mesh_record();
    short.1 = Some(vec![[f(0.0), f(0.0)]; 2]);
    let record: SceneRecord = (Some(vec![unsigned, short]), None, None, None);
    assert_eq!(Scene::from_record(record), Err(ValidationError::AttributeLengthMismatch));
}

#[test]
fn material_fault_comes_before_length_fault() {
    let mut mesh = bare_mesh_record();
    mesh.1 = Some(vec![[f(0.0), f(0.0)]; 2]);
    mesh.6 = Some(0);
    let record: SceneRecord = (Some(vec![mesh]), None, None, None);
    assert_eq!(Scene::from_record(record), Err(ValidationError::MaterialIndexOutOfRange));
}

#[test]
fn absent_is_not_empty() {
    let absent = Scene::new(None, None, None, None).unwrap();
    assert_eq!(absent.materials(), None);
    assert_eq!(absent.meshes(), None);
    assert_eq!(absent.lights(), None);
    assert_eq!(absent.images(), None);
    let empty = Scene::new(Some(vec![]), Some(vec![]), Some(vec![]), Some(vec![])).unwrap();
    assert_eq!(empty.materials(), Some(&[][..]));
    assert_eq!(empty.meshes(), Some(&[][..]));
    assert_eq!(empty.lights(), Some(&[][..]));
    assert_eq!(empty.images(), Some(&[][..]));
    assert_ne!(absent, empty);
    assert_eq!(absent.materials().map_or(0, |m| m.len()), 0);
}

#[test]
fn absent_and_empty_survive_storage() {
    let absent = Scene::new(None, None, None, None).unwrap();
    let empty = Scene::new(Some(vec![]), Some(vec![]), Some(vec![]), Some(vec![])).unwrap();
    let mixed = Scene::new(None, Some(vec![]), None, Some(vec![])).unwrap();
    for scene in [absent, empty, mixed] {
        let bytes = scene.save().unwrap();
        assert_eq!(Scene::load(&bytes).as_ref(), Some(&scene));
        assert_eq!(Scene::load_unchecked(&bytes), Some(scene));
    }
}

#[test]
fn a_scene_without_meshes_is_valid() {
    let scene = Scene::new(None, Some(vec![plain_material()]), Some(vec![sun()]), None).unwrap();
    assert_eq!(scene.fault(), None);
    assert_eq!(scene.materials(), Some(&[plain_material()][..]));
    assert_eq!(scene.lights(), Some(&[sun()][..]));
}

#[test]
fn concrete_scenario_round_trips() {
    let material = Material::new(Uniform::Texture(0), Mre::default(), None, f(0.5));
    let scene = Scene::new(
        Some(vec![mesh_with_material(Some(0))]),
        Some(vec![material]),
        None,
        Some(vec![image()]),
    )
    .unwrap();
    assert_eq!(scene.meshes().unwrap().len(), 1);
    assert_eq!(scene.meshes().unwrap()[0].positions().len(), 4);
    assert_eq!(scene.meshes().unwrap()[0].indices(), Some(&[[0u16, 1, 2]][..]));
    assert_eq!(scene.meshes().unwrap()[0].material(), Some(0));
    assert_eq!(scene.materials().unwrap()[0].albedo(), &Uniform::Texture(0));
    assert_eq!(scene.materials().unwrap()[0].normal_texture(), None);
    assert_eq!(scene.lights(), None);
    let bytes = scene.save().unwrap();
    assert_eq!(Scene::load(&bytes).as_ref(), Some(&scene));
    assert_eq!(Scene::read(&bytes).as_ref(), Ok(&scene));
    assert_eq!(Scene::load_unchecked(&bytes).as_ref(), Some(&scene));
    assert_eq!(Scene::read_unchecked(&bytes), Ok(scene));
}

#[test]
fn a_full_scene_round_trips_in_both_modes() {
    let scene = full_scene();
    let bytes = scene.save().unwrap();
    assert_eq!(Scene::load(&bytes).as_ref(), Some(&scene));
    assert_eq!(Scene::load_unchecked(&bytes), Some(scene));
}

#[test]
fn saved_bytes_are_two_envelopes_around_the_stored_form() {
    let scene = full_scene();
    let bytes = scene.save().unwrap();
    assert_eq!(&bytes[..3], b"RNM");
    let payload = unseal(&bytes).unwrap();
    assert_eq!(bytes, seal(&payload).unwrap());
    let direct = rkyv::to_bytes::<rkyv::rancor::Error>(&scene_record(&scene)).unwrap();
    assert_eq!(payload, direct.to_vec());
    assert_eq!(scene.save().unwrap(), bytes);
}

#[test]
fn a_single_envelope_is_not_a_stored_scene() {
    let scene = full_scene();
    let payload = unseal(&scene.save().unwrap()).unwrap();
    let once = frame(&payload);
    assert!(Scene::load(&once).is_none());
    assert!(matches!(Scene::read(&once), Err(LoadError::Frame(_)) | Err(LoadError::Payload)));
}

#[test]
fn load_reports_a_bad_outer_magic() {
    let mut bytes = full_scene().save().unwrap();
    bytes[0] ^= 0x20;
    assert_eq!(Scene::read(&bytes), Err(LoadError::Frame(FrameError::BadMagic)));
    assert_eq!(Scene::read_unchecked(&bytes), Err(LoadError::Frame(FrameError::BadMagic)));
    assert_eq!(Scene::load(&bytes), None);
    assert_eq!(Scene::load_unchecked(&bytes), None);
}

#[test]
fn load_reports_a_bad_inner_magic() {
    let payload = unseal(&full_scene().save().unwrap()).unwrap();
    let mut inner = frame(&payload);
    inner[2] = b'X';
    let bytes = frame(&inner);
    assert_eq!(Scene::read(&bytes), Err(LoadError::Frame(FrameError::BadMagic)));
    assert_eq!(Scene::load(&bytes), None);
}

#[test]
fn load_reports_a_payload_that_is_no_scene() {
    for payload in [vec![], vec![0xFFu8; 7], vec![0xA5u8; 64]] {
        let bytes = seal(&payload).unwrap();
        assert_eq!(Scene::read(&bytes), Err(LoadError::Payload));
        assert_eq!(Scene::read_unchecked(&bytes), Err(LoadError::Payload));
        assert_eq!(Scene::load(&bytes), None);
    }
    assert_eq!(Scene::read(&[]), Err(LoadError::Frame(FrameError::BadMagic)));
}

#[test]
fn load_does_not_depend_on_where_the_bytes_stand() {
    let scene = full_scene();
    let bytes = scene.save().unwrap();
    for shift in 0..4 {
        let mut padded = vec![0u8; shift];
        padded.extend_from_slice(&bytes);
        assert_eq!(Scene::load(&padded[shift..]).as_ref(), Some(&scene));
    }
}

#[test]
fn enclose_seals_or_reports() {
    assert_eq!(enclose(None), Err(SaveError::Serialize));
    assert_eq!(enclose(Some(vec![1, 2, 3])), Ok(seal(&[1, 2, 3]).unwrap()));
    assert_eq!(enclose(Some(vec![])), Ok(seal(&[]).unwrap()));
}

#[test]
fn records_stand_for_their_values() {
    let color = Uniform::Color(v3(0.1, 0.2, 0.3));
    assert_eq!(uniform_record(&color), Ok(v3(0.1, 0.2, 0.3)));
    assert_eq!(uniform_record(&Uniform::Texture(4)), Err(4));
    assert_eq!(uniform_from(Ok(v3(0.1, 0.2, 0.3))), color);
    assert_eq!(uniform_from(Err(4)), Uniform::Texture(4));
    let value = Mre::Value { metallic: f(0.1), roughness: f(0.2), emission: f(0.3) };
    assert_eq!(mre_record(&value), Err((f(0.1), f(0.2), f(0.3))));
    assert_eq!(mre_record(&Mre::Texture(6)), Ok(6));
    assert_eq!(mre_from(Err((f(0.1), f(0.2), f(0.3)))), value);
    assert_eq!(mre_from(Ok(6)), Mre::Texture(6));
    let material = Material::new(color, Mre::Texture(6), Some(2), f(0.75));
    assert_eq!(material_record(&material), (Ok(v3(0.1, 0.2, 0.3)), Ok(6), Some(2), f(0.75)));
    assert_eq!(material_from(material_record(&material)), material);
    assert_eq!(
        light_record(&sun()),
        Err(Ok((v3(0.0, -1.0, 0.0), v3(1.0, 1.0, 1.0), f(3.0))))
    );
    for light in full_scene().lights().unwrap() {
        assert_eq!(light_from(light_record(light)), *light);
    }
    let picture = Image::new(2, 3, vec![9, 8, 7]);
    assert_eq!(image_record(&picture), (2, 3, vec![9, 8, 7]));
    assert_eq!(image_from((2, 3, vec![9, 8, 7])), picture);
    let mesh = mesh_with_material(Some(1));
    assert_eq!(
        mesh_record(&mesh),
        (square(), None, None, None, None, Some(vec![[0, 1, 2]]), Some(1))
    );
}

#[test]
fn a_scene_is_the_scene_of_its_record() {
    let scene = full_scene();
    let record = scene_record(&scene);
    assert_eq!(record.0.as_ref().map(|m| m.len()), Some(2));
    assert_eq!(record.1.as_ref().map(|m| m.len()), Some(2));
    assert_eq!(record.2.as_ref().map(|m| m.len()), Some(3));
    assert_eq!(record.3.as_ref().map(|m| m.len()), Some(3));
    assert_eq!(Scene::from_record(record), Ok(scene));
    let scene = full_scene();
    assert_eq!(Scene::from_record_unchecked(scene_record(&scene)), scene);
}

#[test]
fn add_appends_and_creates() {
    let mut scene = Scene::new(None, None, None, None).unwrap();
    scene.add_image(image());
    scene.add_material(plain_material());
    scene.add_mesh(mesh_with_material(Some(0)));
    scene.add_light(sun());
    assert_eq!(scene.images(), Some(&[image()][..]));
    assert_eq!(scene.materials(), Some(&[plain_material()][..]));
    assert_eq!(scene.meshes(), Some(&[mesh_with_material(Some(0))][..]));
    assert_eq!(scene.lights(), Some(&[sun()][..]));
    assert_eq!(scene.fault(), None);
    scene.add_light(sun());
    scene.add_mesh(mesh_with_material(None));
    assert_eq!(scene.lights().unwrap().len(), 2);
    assert_eq!(scene.meshes().unwrap().len(), 2);
    assert_eq!(scene.meshes().unwrap()[1], mesh_with_material(None));
    assert_eq!(scene.fault(), None);
    let bytes = scene.save().unwrap();
    assert_eq!(Scene::load(&bytes), Some(scene));
}

#[test]
fn appending_a_dangling_item_shows_as_a_fault() {
    let mut scene = full_scene();
    scene.add_mesh(mesh_with_material(Some(2)));
    assert_eq!(scene.fault(), Some(ValidationError::MaterialIndexOutOfRange));
    scene.add_material(Material::new(Uniform::Texture(3), Mre::default(), None, f(0.5)));
    assert_eq!(scene.fault(), Some(ValidationError::TextureIndexOutOfRange));
    scene.add_image(image());
    assert_eq!(scene.fault(), None);
}

#[test]
fn decode_images_gives_the_raw_bytes_in_order() {
    let first = vec![255, 0, 0, 0, 255, 0];
    let second = vec![1, 2, 3, 4];
    let scene = Scene::new(
        None,
        None,
        None,
        Some(vec![
            Image::from_raw(2, 1, &first).unwrap(),
            Image::from_raw(1, 1, &second).unwrap(),
        ]),
    )
    .unwrap();
    assert_eq!(scene.decode_images(), Some(vec![first, second]));
}

#[test]
fn decode_images_is_none_without_images_or_with_a_broken_one() {
    assert_eq!(Scene::new(None, None, None, None).unwrap().decode_images(), None);
    assert_eq!(Scene::new(None, None, None, Some(vec![])).unwrap().decode_images(), Some(vec![]));
    let broken = Scene::new(None, None, None, Some(vec![image(), Image::new(1, 1, vec![1, 2])]))
        .unwrap();
    assert_eq!(broken.decode_images(), None);
}
