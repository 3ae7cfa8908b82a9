//! A surface input that is either one colour or a texture.

use crate::bits::ONE;
use vstd::prelude::*;

verus! {

/// A colour (red, green, blue) or the index of a texture among the scene's
/// images.
#[derive(Clone, Copy, Debug, PartialEq, Eq)]
pub enum Uniform {
    Color([u32; 3]),
    Texture(u8),
}

impl Uniform {
    /// The texture index, where this is a texture.
    pub open spec fn spec_texture(&self) -> Option<u8> {
        match self {
            Uniform::Texture(t) => Some(*t),
            Uniform::Color(_) => None,
        }
    }

    /// The colour, where this is a colour.
    pub open spec fn spec_color(&self) -> Option<&[u32; 3]> {
        match self {
            Uniform::Color(c) => Some(c),
            Uniform::Texture(_) => None,
        }
    }

    pub fn new_color(color: [u32; 3]) -> (u: Uniform)
        ensures
            u == Uniform::Color(color),
    {
        Uniform::Color(color)
    }

    pub fn new_texture(data: u8) -> (u: Uniform)
        ensures
            u == Uniform::Texture(data),
    {
        Uniform::Texture(data)
    }

    #[verifier::when_used_as_spec(spec_color)]
    pub fn color(&self) -> (c: Option<&[u32; 3]>)
        ensures
            c == self.spec_color(),
    {
        match self {
            Uniform::Color(c) => Some(c),
            Uniform::Texture(_) => None,
        }
    }

    #[verifier::when_used_as_spec(spec_texture)]
    pub fn texture(&self) -> (t: Option<u8>)
        ensures
            t == self.spec_texture(),
    {
        match self {
            Uniform::Texture(t) => Some(*t),
            Uniform::Color(_) => None,
        }
    }
}

impl Default for Uniform {
    /// White.
    fn default() -> (u: Uniform)
        ensures
            u matches Uniform::Color(c) && c@ == seq![ONE, ONE, ONE],
    {
        let white: [u32; 3] = [ONE, ONE, ONE];
        assert(white@ =~= seq![ONE, ONE, ONE]);
        Uniform::Color(white)
    }
}

} // verus!
