//! The material: the values its uniform block starts with, and the shader
//! that reads the block.

use vstd::prelude::*;
use crate::camera::{CameraFrame, Vector3};
use crate::float_bits::{FloatBits, ZERO, ONE, NEG_ONE, THREE, EIGHT, ONE_THOUSAND, TWO_THOUSANDTHS};
use crate::parameters::{ParameterSnapshot, RenderParameters, ViewParameters};
use crate::prepare::mirror_block;
use crate::uniform_block::MaterialUniformBlock;

verus! {

/// The material of the ray-marched surface. Its fields are those of the
/// uniform block at binding 0, in the block's order.
#[derive(Clone, Copy, Debug, PartialEq, Eq, Structural)]
pub struct RayMarchingMaterial {
    pub camera_position: Vector3,
    pub camera_forward: Vector3,
    pub camera_horizontal: Vector3,
    pub camera_vertical: Vector3,
    pub aspect_ratio: FloatBits,
    pub power: FloatBits,
    pub max_iterations: u32,
    pub bailout: FloatBits,
    pub num_steps: u32,
    pub min_dist: FloatBits,
    pub max_dist: FloatBits,
    pub zoom: FloatBits,
}

/// The path of the shader source, which serves both stages.
pub open spec fn spec_shader_path() -> Seq<char> {
    "shaders/ray_marching_material.wgsl"@
}

impl RayMarchingMaterial {
    /// The material as it is created: the camera at the origin facing -Z with
    /// X to its right and Y above, aspect ratio 1, power 8, 8 iterations,
    /// bailout 3, 64 steps, distances from 0.002 to 1000, zoom 1.
    pub open spec fn spec_new() -> RayMarchingMaterial {
        RayMarchingMaterial {
            camera_position: Vector3 { x: ZERO, y: ZERO, z: ZERO },
            camera_forward: Vector3 { x: ZERO, y: ZERO, z: NEG_ONE },
            camera_horizontal: Vector3 { x: ONE, y: ZERO, z: ZERO },
            camera_vertical: Vector3 { x: ZERO, y: ONE, z: ZERO },
            aspect_ratio: ONE,
            power: EIGHT,
            max_iterations: 8,
            bailout: THREE,
            num_steps: 64,
            min_dist: TWO_THOUSANDTHS,
            max_dist: ONE_THOUSAND,
            zoom: ONE,
        }
    }

    /// The uniform block that the material's fields make up.
    pub open spec fn spec_uniform_block(self) -> MaterialUniformBlock {
        MaterialUniformBlock {
            camera: CameraFrame {
                position: self.camera_position,
                forward: self.camera_forward,
                right: self.camera_horizontal,
                up: self.camera_vertical,
            },
            view: ViewParameters { aspect_ratio: self.aspect_ratio },
            render: RenderParameters {
                power: self.power,
                max_iterations: self.max_iterations,
                bailout: self.bailout,
                num_steps: self.num_steps,
                min_dist: self.min_dist,
                max_dist: self.max_dist,
                zoom: self.zoom,
            },
        }
    }

    /// The material whose fields are those of a uniform block.
    pub open spec fn spec_from_block(block: MaterialUniformBlock) -> RayMarchingMaterial {
        RayMarchingMaterial {
            camera_position: block.camera.position,
            camera_forward: block.camera.forward,
            camera_horizontal: block.camera.right,
            camera_vertical: block.camera.up,
            aspect_ratio: block.view.aspect_ratio,
            power: block.render.power,
            max_iterations: block.render.max_iterations,
            bailout: block.render.bailout,
            num_steps: block.render.num_steps,
            min_dist: block.render.min_dist,
            max_dist: block.render.max_dist,
            zoom: block.render.zoom,
        }
    }

    /// A material with the default values.
    pub fn new() -> (material: RayMarchingMaterial)
        ensures
            material == Self::spec_new(),
    {
        RayMarchingMaterial {
            camera_position: Vector3::new(ZERO, ZERO, ZERO),
            camera_forward: Vector3::new(ZERO, ZERO, NEG_ONE),
            camera_horizontal: Vector3::new(ONE, ZERO, ZERO),
            camera_vertical: Vector3::new(ZERO, ONE, ZERO),
            aspect_ratio: ONE,
            power: EIGHT,
            max_iterations: 8,
            bailout: THREE,
            num_steps: 64,
            min_dist: TWO_THOUSANDTHS,
            max_dist: ONE_THOUSAND,
            zoom: ONE,
        }
    }

    /// The shader source of the vertex stage.
    pub fn vertex_shader() -> (path: &'static str)
        ensures
            path@ == spec_shader_path(),
    {
        "shaders/ray_marching_material.wgsl"
    }

    /// The shader source of the fragment stage: the same file.
    pub fn fragment_shader() -> (path: &'static str)
        ensures
            path@ == spec_shader_path(),
    {
        "shaders/ray_marching_material.wgsl"
    }

    /// The uniform block that the material's fields make up.
    pub fn uniform_block(&self) -> (block: MaterialUniformBlock)
        ensures
            block == self.spec_uniform_block(),
    {
        MaterialUniformBlock {
            camera: CameraFrame {
                position: self.camera_position,
                forward: self.camera_forward,
                right: self.camera_horizontal,
                up: self.camera_vertical,
            },
            view: ViewParameters { aspect_ratio: self.aspect_ratio },
            render: RenderParameters {
                power: self.power,
                max_iterations: self.max_iterations,
                bailout: self.bailout,
                num_steps: self.num_steps,
                min_dist: self.min_dist,
                max_dist: self.max_dist,
                zoom: self.zoom,
            },
        }
    }

    /// The material whose fields are those of a uniform block.
    pub fn from_block(block: &MaterialUniformBlock) -> (material: RayMarchingMaterial)
        ensures
            material == Self::spec_from_block(*block),
    {
        RayMarchingMaterial {
            camera_position: block.camera.position,
            camera_forward: block.camera.forward,
            camera_horizontal: block.camera.right,
            camera_vertical: block.camera.up,
            aspect_ratio: block.view.aspect_ratio,
            power: block.render.power,
            max_iterations: block.render.max_iterations,
            bailout: block.render.bailout,
            num_steps: block.render.num_steps,
            min_dist: block.render.min_dist,
            max_dist: block.render.max_dist,
            zoom: block.render.zoom,
        }
    }
}

/// A material and its uniform block hold the same values: going to the block
/// and back, or from a block and back, changes nothing.
pub proof fn lemma_block_round_trip(material: RayMarchingMaterial, block: MaterialUniformBlock)
    ensures
        RayMarchingMaterial::spec_from_block(material.spec_uniform_block()) == material,
        RayMarchingMaterial::spec_from_block(block).spec_uniform_block() == block,
{
}

/// The material's defaults are what a frame writes before anything was
/// changed: the block of a camera at the origin facing -Z and the default
/// parameters is the default material's block.
pub proof fn lemma_default_material_is_default_frame()
    ensures
        RayMarchingMaterial::spec_new().spec_uniform_block() == mirror_block(
            CameraFrame::spec_at_origin(),
            ParameterSnapshot {
                render: RenderParameters::spec_defaults(),
                view: ViewParameters::spec_defaults(),
            },
        ),
{
}

} // verus!
