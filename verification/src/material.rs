//! Surface materials and the texture indices that they name.

use crate::bits::HALF;
use crate::mre::Mre;
use crate::uniform::Uniform;
use vstd::prelude::*;

verus! {

/// How a surface is shaded. Each texture index counts among the scene's
/// images.
#[derive(Clone, Copy, Debug, PartialEq, Eq)]
pub struct Material {
    albedo: Uniform,
    metallic_roughness_emission: Mre,
    normal_texture: Option<u8>,
    specular: u32,
}

/// The mathematical value of a [`Material`].
pub struct MaterialView {
    pub albedo: Uniform,
    pub metallic_roughness_emission: Mre,
    pub normal_texture: Option<u8>,
    pub specular: u32,
}

impl View for Material {
    type V = MaterialView;

    closed spec fn view(&self) -> MaterialView {
        MaterialView {
            albedo: self.albedo,
            metallic_roughness_emission: self.metallic_roughness_emission,
            normal_texture: self.normal_texture,
            specular: self.specular,
        }
    }
}

/// The greater of two indices.
pub open spec fn greater(a: u8, b: u8) -> u8 {
    if a > b {
        a
    } else {
        b
    }
}

impl MaterialView {
    /// Whether every texture index that the material names is below `images`.
    pub open spec fn textures_within(self, images: nat) -> bool {
        &&& self.albedo.spec_texture() matches Some(t) ==> t < images
        &&& self.metallic_roughness_emission.spec_texture() matches Some(t) ==> t < images
        &&& self.normal_texture matches Some(t) ==> t < images
    }

    /// Whether the material names any texture.
    pub open spec fn names_texture(self) -> bool {
        ||| self.albedo.spec_texture() is Some
        ||| self.metallic_roughness_emission.spec_texture() is Some
        ||| self.normal_texture is Some
    }

    /// The greatest texture index that the material names, `None` where it
    /// names none.
    pub open spec fn max_texture(self) -> Option<u8> {
        if self.names_texture() {
            Some(
                greater(
                    greater(
                        self.albedo.spec_texture().unwrap_or(0),
                        self.metallic_roughness_emission.spec_texture().unwrap_or(0),
                    ),
                    self.normal_texture.unwrap_or(0),
                ),
            )
        } else {
            None
        }
    }
}

/// The material's texture indices are all below `images` exactly where its
/// greatest one is.
pub proof fn lemma_max_texture_decides(material: MaterialView, images: nat)
    ensures
        material.textures_within(images) <==> (material.max_texture() matches Some(t) ==> t
            < images),
{
}

/// The greater of `a` and `b`.
pub fn const_max(a: u8, b: u8) -> (m: u8)
    ensures
        m == greater(a, b),
{
    if a > b {
        a
    } else {
        b
    }
}

/// The value inside `i`, or `v` where there is none.
pub fn const_unwrap_or(i: Option<u8>, v: u8) -> (x: u8)
    ensures
        x == i.unwrap_or(v),
{
    match i {
        Some(x) => x,
        None => v,
    }
}

impl Material {
    pub fn new(
        albedo: Uniform,
        metallic_roughness_emission: Mre,
        normal_texture: Option<u8>,
        specular: u32,
    ) -> (material: Material)
        ensures
            material@ == (MaterialView {
                albedo,
                metallic_roughness_emission,
                normal_texture,
                specular,
            }),
    {
        Material { albedo, metallic_roughness_emission, normal_texture, specular }
    }

    pub fn albedo(&self) -> (albedo: &Uniform)
        ensures
            *albedo == self@.albedo,
    {
        &self.albedo
    }

    pub fn metallic_roughness_emission(&self) -> (mre: &Mre)
        ensures
            *mre == self@.metallic_roughness_emission,
    {
        &self.metallic_roughness_emission
    }

    pub fn normal_texture(&self) -> (index: Option<u8>)
        ensures
            index == self@.normal_texture,
    {
        self.normal_texture
    }

    pub fn specular(&self) -> (specular: u32)
        ensures
            specular == self@.specular,
    {
        self.specular
    }

    /// The greatest texture index that this material names, `None` where it
    /// names none.
    pub fn max_texture_idx(&self) -> (max: Option<u8>)
        ensures
            max == self@.max_texture(),
    {
        let t = self.albedo.texture();
        let m = self.metallic_roughness_emission.texture();
        let n = self.normal_texture;
        if t.is_none() && m.is_none() && n.is_none() {
            None
        } else {
            let t = const_unwrap_or(t, 0);
            let m = const_unwrap_or(m, 0);
            let n = const_unwrap_or(n, 0);
            Some(const_max(const_max(t, m), n))
        }
    }
}

impl Default for Material {
    /// White, not metallic, half rough, without a normal texture, specular
    /// one half.
    fn default() -> (material: Material)
        ensures
            material@.albedo matches Uniform::Color(c) && c@ == seq![
                crate::bits::ONE,
                crate::bits::ONE,
                crate::bits::ONE,
            ],
            material@.metallic_roughness_emission == (Mre::Value {
                metallic: crate::bits::ZERO,
                roughness: HALF,
                emission: crate::bits::ZERO,
            }),
            material@.normal_texture is None,
            material@.specular == HALF,
    {
        Material {
            albedo: Uniform::default(),
            specular: HALF,
            normal_texture: None,
            metallic_roughness_emission: Mre::default(),
        }
    }
}

} // verus!
