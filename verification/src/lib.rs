//! A software 3D rendering pipeline over fixed-point arithmetic.
//!
//! The crate takes a list of mesh vertices and per-frame transformation
//! parameters and produces a shaded 2D pixel buffer: vertices are carried
//! through model/view/projection/viewport transforms, triangles are
//! rasterized with a barycentric coverage test and depth-correct
//! interpolation, and each covered pixel is colored by one of a closed set
//! of procedural shaders before a depth-tested write into the framebuffer.
//!
//! All coordinates, depths and blend factors are Q16.16 fixed-point values
//! held in `i64` (the constant `FX_ONE` is the number one). Procedural
//! noise is an external capability supplied by the caller through the
//! `NoiseSource` trait; window handling and mesh loading live outside the
//! library.

pub mod camera;
pub mod color;
pub mod fixed;
pub mod fragment;
pub mod framebuffer;
pub mod matrix;
pub mod pipeline;
pub mod raster;
pub mod shaders;
pub mod transform;
pub mod vec3;
pub mod vertex;
