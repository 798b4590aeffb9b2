//! One frame: extraction, then preparation.
//!
//! The two stages run in this order and each runs to its end before the next
//! one starts. What is stated here holds of every such frame: what the
//! frame's writes carry, and that a frame repeated on an unchanged
//! simulation state repeats its writes byte for byte.

use vstd::prelude::*;
use crate::camera::CameraFrame;
use crate::parameters::ParameterSnapshot;
use crate::extract::{
    designated_camera, extracted, is_listed, lemma_extract_mirrors, lemma_extraction_idempotent,
    lemma_extraction_mirrors_each_entity, lemma_extraction_without_camera,
    lemma_listed_material_is_listed, listed_material,
};
use crate::layout::{Field, BLOCK_SIZE};
use crate::little_endian::le_bytes;
use crate::prepare::{
    BindingResource, ScheduledWrite, lemma_frame_writes_complete, lemma_frame_writes_sound,
    lemma_no_writes, mirror_block, mirror_writes, prepared, write_serves,
};
use crate::uniform_block::{
    MaterialUniformBlock, field_range, lemma_decode_encode, lemma_encode_places_fields,
    vector_bytes,
};
use crate::world::{
    MirrorEntity, RenderWorldView, SimulationView, distinct_entities, position_of,
};

verus! {

/// The writes of one frame: those that preparation lists for the render world
/// that extraction leaves.
pub open spec fn cycle_writes(
    world: RenderWorldView,
    sim: SimulationView,
    materials: Map<u64, Seq<BindingResource>>,
) -> Seq<ScheduledWrite> {
    prepared(extracted(world, sim), materials)
}

/// Every write of a frame carries the simulation side's current parameters:
/// it replaces a whole block from offset 0 on, and at the offset of each
/// parameter the block holds the bytes of the parameter's value as the store
/// gave it, whatever that value is.
pub proof fn lemma_cycle_carries_parameters(
    world: RenderWorldView,
    sim: SimulationView,
    materials: Map<u64, Seq<BindingResource>>,
    n: int,
)
    requires
        0 <= n < cycle_writes(world, sim, materials).len(),
    ensures
        ({
            let write = cycle_writes(world, sim, materials)[n];
            let render = sim.parameters.render;
            &&& write.offset == 0
            &&& write.data.len() == BLOCK_SIZE
            &&& field_range(write.data, Field::AspectRatio) == le_bytes(
                sim.parameters.view.aspect_ratio,
            )
            &&& field_range(write.data, Field::Power) == le_bytes(render.power)
            &&& field_range(write.data, Field::MaxIterations) == le_bytes(render.max_iterations)
            &&& field_range(write.data, Field::Bailout) == le_bytes(render.bailout)
            &&& field_range(write.data, Field::NumSteps) == le_bytes(render.num_steps)
            &&& field_range(write.data, Field::MinDist) == le_bytes(render.min_dist)
            &&& field_range(write.data, Field::MaxDist) == le_bytes(render.max_dist)
            &&& field_range(write.data, Field::Zoom) == le_bytes(render.zoom)
        }),
{
    let after = extracted(world, sim);
    let writes = cycle_writes(world, sim, materials);
    lemma_frame_writes_sound(after.mirrors, after.parameters, materials, n);
    let (k, j) = choose|k: int, j: int|
        0 <= k < after.mirrors.len() && #[trigger] write_serves(
            writes[n],
            after.mirrors[k],
            j,
            after.parameters,
            materials,
        );
    let block = mirror_block(after.mirrors[k].transform.unwrap(), sim.parameters);
    lemma_encode_places_fields(block, Field::AspectRatio);
    lemma_encode_places_fields(block, Field::Power);
    lemma_encode_places_fields(block, Field::MaxIterations);
    lemma_encode_places_fields(block, Field::Bailout);
    lemma_encode_places_fields(block, Field::NumSteps);
    lemma_encode_places_fields(block, Field::MinDist);
    lemma_encode_places_fields(block, Field::MaxDist);
    lemma_encode_places_fields(block, Field::Zoom);
}

/// Whether the bytes of a write carry the camera frame that a mirror holds:
/// the mirror holds one, its four vectors stand at their offsets, and
/// decoding the bytes gives that camera frame and the parameters back.
pub open spec fn carries_frame_of(
    data: Seq<u8>,
    mirror: MirrorEntity,
    parameters: ParameterSnapshot,
) -> bool {
    match mirror.transform {
        Some(camera) => {
            &&& field_range(data, Field::CameraPosition) == vector_bytes(camera.position)
            &&& field_range(data, Field::CameraForward) == vector_bytes(camera.forward)
            &&& field_range(data, Field::CameraHorizontal) == vector_bytes(camera.right)
            &&& field_range(data, Field::CameraVertical) == vector_bytes(camera.up)
            &&& MaterialUniformBlock::spec_decode(data) == Some(mirror_block(camera, parameters))
        },
        None => false,
    }
}

/// Every write of a frame carries the camera frame of a mirror as the mirror
/// holds it when the writes are listed: the four vectors stand at their
/// offsets, and decoding the write's bytes gives the mirror's camera frame
/// and the frame's parameters back, bit for bit.
pub proof fn lemma_cycle_carries_camera(
    world: RenderWorldView,
    sim: SimulationView,
    materials: Map<u64, Seq<BindingResource>>,
    n: int,
)
    requires
        0 <= n < cycle_writes(world, sim, materials).len(),
    ensures
        exists|k: int|
            0 <= k < extracted(world, sim).mirrors.len() && #[trigger] carries_frame_of(
                cycle_writes(world, sim, materials)[n].data,
                extracted(world, sim).mirrors[k],
                sim.parameters,
            ),
{
    let after = extracted(world, sim);
    let writes = cycle_writes(world, sim, materials);
    lemma_frame_writes_sound(after.mirrors, after.parameters, materials, n);
    let (k, j) = choose|k: int, j: int|
        0 <= k < after.mirrors.len() && #[trigger] write_serves(
            writes[n],
            after.mirrors[k],
            j,
            after.parameters,
            materials,
        );
    let camera = after.mirrors[k].transform.unwrap();
    let block = mirror_block(camera, sim.parameters);
    lemma_encode_places_fields(block, Field::CameraPosition);
    lemma_encode_places_fields(block, Field::CameraForward);
    lemma_encode_places_fields(block, Field::CameraHorizontal);
    lemma_encode_places_fields(block, Field::CameraVertical);
    lemma_decode_encode(block);
    assert(carries_frame_of(writes[n].data, after.mirrors[k], sim.parameters));
}

/// In a frame that has a camera, and whose render world held no mirror of an
/// identity that the simulation world no longer lists, every write carries
/// exactly the frame's camera and parameters.
pub proof fn lemma_cycle_carries_designated_camera(
    world: RenderWorldView,
    sim: SimulationView,
    materials: Map<u64, Seq<BindingResource>>,
    camera: CameraFrame,
    n: int,
)
    requires
        distinct_entities(world.mirrors),
        forall|k: int|
            0 <= k < world.mirrors.len() ==> is_listed(
                sim.materials,
                (#[trigger] world.mirrors[k]).entity,
            ),
        designated_camera(sim.cameras) == Some(camera),
        0 <= n < cycle_writes(world, sim, materials).len(),
    ensures
        cycle_writes(world, sim, materials)[n].data == mirror_block(
            camera,
            sim.parameters,
        ).spec_encode(),
        MaterialUniformBlock::spec_decode(cycle_writes(world, sim, materials)[n].data) == Some(
            MaterialUniformBlock {
                camera,
                view: sim.parameters.view,
                render: sim.parameters.render,
            },
        ),
{
    let after = extracted(world, sim);
    let writes = cycle_writes(world, sim, materials);
    lemma_extract_mirrors(world.mirrors, sim.materials, Some(camera));
    lemma_frame_writes_sound(after.mirrors, after.parameters, materials, n);
    let (k, j) = choose|k: int, j: int|
        0 <= k < after.mirrors.len() && #[trigger] write_serves(
            writes[n],
            after.mirrors[k],
            j,
            after.parameters,
            materials,
        );
    if k < world.mirrors.len() {
        assert(after.mirrors[k].entity == world.mirrors[k].entity);
    }
    assert(is_listed(sim.materials, after.mirrors[k].entity));
    lemma_decode_encode(mirror_block(camera, sim.parameters));
}

/// In a frame that has a camera, every buffer of every listed entity's
/// material is written, if the material is resolved: the frame's writes hold
/// one to that buffer, at offset 0, with the block of the frame's camera and
/// parameters.
pub proof fn lemma_cycle_writes_each_resolved_entity(
    world: RenderWorldView,
    sim: SimulationView,
    materials: Map<u64, Seq<BindingResource>>,
    camera: CameraFrame,
    index: int,
    binding: int,
    buffer: u64,
)
    requires
        distinct_entities(world.mirrors),
        designated_camera(sim.cameras) == Some(camera),
        0 <= index < sim.materials.len(),
        materials.contains_key(listed_material(sim.materials, sim.materials[index].entity)),
        0 <= binding < materials[listed_material(
            sim.materials,
            sim.materials[index].entity,
        )].len(),
        materials[listed_material(sim.materials, sim.materials[index].entity)][binding]
            == BindingResource::Buffer(buffer),
    ensures
        cycle_writes(world, sim, materials).contains(
            ScheduledWrite {
                buffer,
                offset: 0,
                data: mirror_block(camera, sim.parameters).spec_encode(),
            },
        ),
{
    let after = extracted(world, sim);
    let entity = sim.materials[index].entity;
    lemma_extraction_mirrors_each_entity(world.mirrors, sim.materials, Some(camera), index);
    let place = position_of(after.mirrors, entity);
    lemma_frame_writes_complete(
        after.mirrors,
        after.parameters,
        materials,
        place,
        binding,
        buffer,
    );
}

/// A frame repeated on an unchanged simulation state changes nothing: the
/// second extraction leaves the render world as the first one left it, and
/// the second preparation lists the same writes, byte for byte.
pub proof fn lemma_cycle_idempotent(
    world: RenderWorldView,
    sim: SimulationView,
    materials: Map<u64, Seq<BindingResource>>,
)
    requires
        distinct_entities(world.mirrors),
    ensures
        extracted(extracted(world, sim), sim) == extracted(world, sim),
        cycle_writes(extracted(world, sim), sim, materials) == cycle_writes(world, sim, materials),
{
    lemma_extraction_idempotent(world.mirrors, sim.materials, designated_camera(sim.cameras));
}

/// A mirror whose material has no GPU resource yet gets no write.
pub proof fn lemma_unresolved_material_gets_no_write(
    mirror: MirrorEntity,
    parameters: ParameterSnapshot,
    materials: Map<u64, Seq<BindingResource>>,
)
    requires
        !materials.contains_key(mirror.material),
    ensures
        mirror_writes(mirror, parameters, materials).len() == 0,
{
}

/// A frame in which no listed entity's material has a GPU resource yet, on a
/// render world that held no mirror of another identity, writes nothing.
pub proof fn lemma_cycle_without_resources(
    world: RenderWorldView,
    sim: SimulationView,
    materials: Map<u64, Seq<BindingResource>>,
)
    requires
        distinct_entities(world.mirrors),
        forall|k: int|
            0 <= k < world.mirrors.len() ==> is_listed(
                sim.materials,
                (#[trigger] world.mirrors[k]).entity,
            ),
        forall|i: int|
            0 <= i < sim.materials.len() ==> !materials.contains_key(
                (#[trigger] sim.materials[i]).material,
            ),
    ensures
        cycle_writes(world, sim, materials).len() == 0,
{
    let after = extracted(world, sim);
    let camera = designated_camera(sim.cameras);
    lemma_extract_mirrors(world.mirrors, sim.materials, camera);
    assert forall|k: int| 0 <= k < after.mirrors.len() implies (
    #[trigger] after.mirrors[k]).transform.is_none() || !materials.contains_key(
        after.mirrors[k].material,
    ) by {
        let entity = after.mirrors[k].entity;
        if k < world.mirrors.len() {
            assert(after.mirrors[k].entity == world.mirrors[k].entity);
        }
        assert(is_listed(sim.materials, entity));
        lemma_listed_material_is_listed(sim.materials, entity);
    }
    lemma_no_writes(after.mirrors, after.parameters, materials);
}

/// A frame without a camera attaches no camera frame, and a mirror without
/// one gets no write: on a render world whose mirrors hold no camera frame,
/// as after `clear_entities`, no mirror holds one after extraction and the
/// frame writes nothing.
pub proof fn lemma_cycle_without_camera(
    world: RenderWorldView,
    sim: SimulationView,
    materials: Map<u64, Seq<BindingResource>>,
)
    requires
        distinct_entities(world.mirrors),
        forall|k: int|
            0 <= k < world.mirrors.len() ==> (#[trigger] world.mirrors[k]).transform.is_none(),
        sim.cameras.len() == 0,
    ensures
        forall|k: int|
            0 <= k < extracted(world, sim).mirrors.len() ==> (#[trigger] extracted(
                world,
                sim,
            ).mirrors[k]).transform.is_none(),
        cycle_writes(world, sim, materials).len() == 0,
{
    let after = extracted(world, sim);
    assert forall|k: int| 0 <= k < after.mirrors.len() implies (
    #[trigger] after.mirrors[k]).transform.is_none() by {
        lemma_extraction_without_camera(world.mirrors, sim.materials, k);
    }
    lemma_no_writes(after.mirrors, after.parameters, materials);
}

} // verus!
