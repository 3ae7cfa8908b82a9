//! A compact binary container for 3D scene assets: meshes, materials, lights
//! and images, with the framing and the cross-reference validation that make
//! a stored scene safe to read back.
//!
//! Every floating-point quantity is held as the bit pattern of an IEEE-754
//! single-precision number (`f32::to_bits` / `f32::from_bits`), so that the
//! whole data model is made of integers.

pub mod archive;
pub mod bits;
pub mod bytes;
pub mod file;
pub mod image;
pub mod light;
pub mod material;
pub mod mesh;
pub mod mre;
pub mod scene;
pub mod seqs;
pub mod uniform;

pub use image::Image;
pub use light::Light;
pub use material::Material;
pub use mesh::Mesh;
pub use mre::Mre;
pub use scene::Scene;
pub use uniform::Uniform;
