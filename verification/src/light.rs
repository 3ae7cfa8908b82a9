//! Light sources.

use vstd::prelude::*;

verus! {

/// A point light, a sun or a spot. A light refers to nothing else in the
/// scene.
#[derive(Clone, Copy, Debug, PartialEq, Eq)]
pub enum Light {
    Point { position: [u32; 3], color: [u32; 3], power: u32, radius: u32 },
    Sun { direction: [u32; 3], color: [u32; 3], power: u32 },
    Spot {
        position: [u32; 3],
        direction: [u32; 3],
        color: [u32; 3],
        power: u32,
        radius: u32,
        blend: u32,
    },
}

impl Light {
    pub open spec fn spec_color(&self) -> &[u32; 3] {
        match self {
            Light::Point { color, .. } => color,
            Light::Sun { color, .. } => color,
            Light::Spot { color, .. } => color,
        }
    }

    pub open spec fn spec_power(&self) -> u32 {
        match self {
            Light::Point { power, .. } => *power,
            Light::Sun { power, .. } => *power,
            Light::Spot { power, .. } => *power,
        }
    }

    /// The colour, whichever the kind.
    #[verifier::when_used_as_spec(spec_color)]
    pub fn color(&self) -> (c: &[u32; 3])
        ensures
            c == self.spec_color(),
    {
        match self {
            Light::Point { color, .. } => color,
            Light::Sun { color, .. } => color,
            Light::Spot { color, .. } => color,
        }
    }

    /// The power, whichever the kind.
    #[verifier::when_used_as_spec(spec_power)]
    pub fn power(&self) -> (p: u32)
        ensures
            p == self.spec_power(),
    {
        match self {
            Light::Point { power, .. } => *power,
            Light::Sun { power, .. } => *power,
            Light::Spot { power, .. } => *power,
        }
    }
}

} // verus!
