//! Metallic, roughness and emission: three numbers or one texture.

use crate::bits::{HALF, ZERO};
use vstd::prelude::*;

verus! {

/// The index of a texture among the scene's images, or the three values.
#[derive(Clone, Copy, Debug, PartialEq, Eq)]
pub enum Mre {
    Texture(u8),
    Value { metallic: u32, roughness: u32, emission: u32 },
}

impl Mre {
    /// The texture index, where this is a texture.
    pub open spec fn spec_texture(&self) -> Option<u8> {
        match self {
            Mre::Texture(t) => Some(*t),
            Mre::Value { .. } => None,
        }
    }

    pub open spec fn spec_metallic(&self) -> Option<u32> {
        match self {
            Mre::Value { metallic, .. } => Some(*metallic),
            Mre::Texture(_) => None,
        }
    }

    pub open spec fn spec_roughness(&self) -> Option<u32> {
        match self {
            Mre::Value { roughness, .. } => Some(*roughness),
            Mre::Texture(_) => None,
        }
    }

    pub open spec fn spec_emission(&self) -> Option<u32> {
        match self {
            Mre::Value { emission, .. } => Some(*emission),
            Mre::Texture(_) => None,
        }
    }

    #[verifier::when_used_as_spec(spec_texture)]
    pub fn texture(&self) -> (t: Option<u8>)
        ensures
            t == self.spec_texture(),
    {
        match self {
            Mre::Texture(t) => Some(*t),
            Mre::Value { .. } => None,
        }
    }

    #[verifier::when_used_as_spec(spec_metallic)]
    pub fn metallic(&self) -> (x: Option<u32>)
        ensures
            x == self.spec_metallic(),
    {
        match self {
            Mre::Value { metallic, .. } => Some(*metallic),
            Mre::Texture(_) => None,
        }
    }

    #[verifier::when_used_as_spec(spec_roughness)]
    pub fn roughness(&self) -> (x: Option<u32>)
        ensures
            x == self.spec_roughness(),
    {
        match self {
            Mre::Value { roughness, .. } => Some(*roughness),
            Mre::Texture(_) => None,
        }
    }

    #[verifier::when_used_as_spec(spec_emission)]
    pub fn emission(&self) -> (x: Option<u32>)
        ensures
            x == self.spec_emission(),
    {
        match self {
            Mre::Value { emission, .. } => Some(*emission),
            Mre::Texture(_) => None,
        }
    }
}

impl Default for Mre {
    /// Not metallic, half rough, not emissive.
    fn default() -> (m: Mre)
        ensures
            m == (Mre::Value { metallic: ZERO, roughness: HALF, emission: ZERO }),
    {
        Mre::Value { metallic: ZERO, roughness: HALF, emission: ZERO }
    }
}

} // verus!
