//! Per-frame synchronisation of a ray-marched Mandelbulb material.
//!
//! The simulation side owns the camera and the fractal parameters; the render
//! side owns a mirror of them and the GPU buffers that the shader reads. This
//! crate holds the rules that connect the two: the byte layout of the uniform
//! block, the copy from the simulation world into the render world, and the
//! list of buffer writes that a frame has to perform.
//!
//! Every 32-bit float is carried as its IEEE-754 bit pattern (`FloatBits`), so
//! that all of the above is integer logic with machine-checked contracts.

pub mod float_bits;
pub mod camera;
pub mod parameters;
pub mod layout;
pub mod little_endian;
pub mod uniform_block;
pub mod material;
pub mod world;
pub mod extract;
pub mod prepare;
pub mod frame;

pub use camera::{CameraFrame, Vector3};
pub use extract::extract_raymarching_material;
pub use material::RayMarchingMaterial;
pub use parameters::{ParameterSnapshot, ParameterStore, RenderParameters, ViewParameters};
pub use prepare::{prepare_raymarching_material, BindingResource, BufferWrite, RenderMaterials};
pub use uniform_block::MaterialUniformBlock;
pub use world::{MaterialEntity, MirrorEntity, RenderWorld, SimulationWorld};
