use bevy::prelude::{Entity, Quat, Transform, Vec3};
use ray_marching_material::float_bits::bits_same_number;
use ray_marching_material::layout::{Field, BLOCK_SIZE};
use ray_marching_material::{
    extract_raymarching_material, prepare_raymarching_material, BindingResource, BufferWrite,
    CameraFrame, MaterialEntity, MaterialUniformBlock, MirrorEntity, ParameterSnapshot,
    ParameterStore, RayMarchingMaterial, RenderMaterials, RenderParameters, RenderWorld,
    SimulationWorld, Vector3, ViewParameters,
};
use std::collections::HashMap;

fn bits(v: Vec3) -> Vector3 {
    Vector3::new(v.x.to_bits(), v.y.to_bits(), v.z.to_bits())
}

fn frame_of(transform: &Transform) -> CameraFrame {
    CameraFrame {
        position: bits(transform.translation),
        forward: bits(transform.forward()),
        right: bits(transform.right()),
        up: bits(transform.up()),
    }
}

fn vector(x: f32, y: f32, z: f32) -> Vector3 {
    Vector3::new(x.to_bits(), y.to_bits(), z.to_bits())
}

fn camera_at(x: f32, y: f32, z: f32) -> CameraFrame {
    CameraFrame {
        position: vector(x, y, z),
        forward: vector(0.0, 0.0, -1.0),
        right: vector(1.0, 0.0, 0.0),
        up: vector(0.0, 1.0, 0.0),
    }
}

fn world_of(materials: Vec<(u64, u64)>, cameras: Vec<CameraFrame>) -> SimulationWorld {
    SimulationWorld {
        materials: materials
            .into_iter()
            .map(|(entity, material)| MaterialEntity { entity, material })
            .collect(),
        cameras,
        parameters: ParameterStore::new(),
    }
}

fn one_buffer(material: u64, buffer: u64) -> RenderMaterials {
    let mut table = RenderMaterials::new();
    table.insert(material, vec![BindingResource::Buffer(buffer)]);
    table
}

fn run_frame(
    sim: &SimulationWorld,
    render_world: &mut RenderWorld,
    materials: &RenderMaterials,
) -> Vec<BufferWrite> {
    extract_raymarching_material(sim, render_world);
    prepare_raymarching_material(materials, render_world)
}

fn apply(gpu: &mut HashMap<u64, Vec<u8>>, writes: &[BufferWrite]) {
    for write in writes {
        assert_eq!(write.offset, 0);
        gpu.insert(write.buffer, write.data.clone());
    }
}

fn same_numbers(a: Vector3, b: Vector3) -> bool {
    bits_same_number(a.x, b.x) && bits_same_number(a.y, b.y) && bits_same_number(a.z, b.z)
}

#[test]
fn default_frame_decodes_to_the_documented_defaults() {
    let sim = world_of(vec![(1, 7)], vec![CameraFrame::at_origin()]);
    let mut render_world = RenderWorld::new();
    let writes = run_frame(&sim, &mut render_world, &one_buffer(7, 70));
    assert_eq!(writes.len(), 1);
    assert_eq!(writes[0].buffer, 70);
    assert_eq!(writes[0].offset, 0);
    assert_eq!(writes[0].data.len(), BLOCK_SIZE);
    let block = MaterialUniformBlock::decode(&writes[0].data).unwrap();
    assert_eq!(RayMarchingMaterial::from_block(&block), RayMarchingMaterial::new());
    assert_eq!(block.camera.position, vector(0.0, 0.0, 0.0));
    assert_eq!(block.camera.forward, vector(0.0, 0.0, -1.0));
    assert_eq!(block.camera.right, vector(1.0, 0.0, 0.0));
    assert_eq!(block.camera.up, vector(0.0, 1.0, 0.0));
    assert_eq!(f32::from_bits(block.view.aspect_ratio), 1.0);
    assert_eq!(f32::from_bits(block.render.power), 8.0);
    assert_eq!(block.render.max_iterations, 8);
    assert_eq!(f32::from_bits(block.render.bailout), 3.0);
    assert_eq!(block.render.num_steps, 64);
    assert_eq!(f32::from_bits(block.render.min_dist), 0.002);
    assert_eq!(f32::from_bits(block.render.max_dist), 1000.0);
    assert_eq!(f32::from_bits(block.render.zoom), 1.0);
    assert_eq!(writes[0].data, RayMarchingMaterial::new().uniform_block().encode());
}

#[test]
fn identity_transform_decodes_to_the_default_camera_as_numbers() {
    let sim = world_of(vec![(1, 7)], vec![frame_of(&Transform::IDENTITY)]);
    let mut render_world = RenderWorld::new();
    let writes = run_frame(&sim, &mut render_world, &one_buffer(7, 70));
    assert_eq!(writes.len(), 1);
    let block = MaterialUniformBlock::decode(&writes[0].data).unwrap();
    let start = RayMarchingMaterial::new();
    assert!(same_numbers(block.camera.position, start.camera_position));
    assert!(same_numbers(block.camera.forward, start.camera_forward));
    assert!(same_numbers(block.camera.right, start.camera_horizontal));
    assert!(same_numbers(block.camera.up, start.camera_vertical));
    assert_eq!(block.view, ViewParameters::defaults());
    assert_eq!(block.render, RenderParameters::defaults());
}

#[test]
fn a_parameter_change_shows_in_the_next_frame_only() {
    let mut sim = world_of(vec![(1, 7)], vec![CameraFrame::at_origin()]);
    let table = one_buffer(7, 70);
    let mut render_world = RenderWorld::new();
    let mut gpu: HashMap<u64, Vec<u8>> = HashMap::new();

    let first = run_frame(&sim, &mut render_world, &table);
    apply(&mut gpu, &first);
    let cached = gpu[&70].clone();

    let mut changed = sim.parameters.get().render;
    changed.power = 12.0f32.to_bits();
    changed.num_steps = 128;
    sim.parameters.set_render(changed);
    assert_eq!(gpu[&70], cached);

    render_world.clear_entities();
    let second = run_frame(&sim, &mut render_world, &table);
    apply(&mut gpu, &second);

    let now = MaterialUniformBlock::decode(&gpu[&70]).unwrap();
    assert_eq!(f32::from_bits(now.render.power), 12.0);
    assert_eq!(now.render.num_steps, 128);
    assert_eq!(now.render.max_iterations, 8);
    assert_eq!(f32::from_bits(now.render.bailout), 3.0);
    assert_eq!(now.view, ViewParameters::defaults());
    assert_eq!(now.camera, CameraFrame::at_origin());

    let then = MaterialUniformBlock::decode(&cached).unwrap();
    assert_eq!(f32::from_bits(then.render.power), 8.0);
    assert_eq!(then.render.num_steps, 64);
    assert_eq!(first[0].data, cached);
    assert_eq!(MaterialUniformBlock::decode(&first[0].data).unwrap().render.num_steps, 64);
}

#[test]
fn parameters_stand_at_their_offsets() {
    let mut sim = world_of(vec![(1, 7)], vec![camera_at(0.0, 0.0, 5.0)]);
    sim.parameters.set(ParameterSnapshot {
        render: RenderParameters {
            power: 6.5f32.to_bits(),
            max_iterations: 21,
            bailout: 4.25f32.to_bits(),
            num_steps: 300,
            min_dist: 0.0005f32.to_bits(),
            max_dist: 75.0f32.to_bits(),
            zoom: 2.5f32.to_bits(),
        },
        view: ViewParameters { aspect_ratio: 1.3333334f32.to_bits() },
    });
    let mut render_world = RenderWorld::new();
    let writes = run_frame(&sim, &mut render_world, &one_buffer(7, 70));
    assert_eq!(writes.len(), 1);
    let data = &writes[0].data;
    let at = |field: Field| data[field.offset()..field.offset() + field.size()].to_vec();
    assert_eq!(at(Field::AspectRatio), 1.3333334f32.to_le_bytes().to_vec());
    assert_eq!(at(Field::Power), 6.5f32.to_le_bytes().to_vec());
    assert_eq!(at(Field::MaxIterations), 21u32.to_le_bytes().to_vec());
    assert_eq!(at(Field::Bailout), 4.25f32.to_le_bytes().to_vec());
    assert_eq!(at(Field::NumSteps), 300u32.to_le_bytes().to_vec());
    assert_eq!(at(Field::MinDist), 0.0005f32.to_le_bytes().to_vec());
    assert_eq!(at(Field::MaxDist), 75.0f32.to_le_bytes().to_vec());
    assert_eq!(at(Field::Zoom), 2.5f32.to_le_bytes().to_vec());
    assert_eq!(data[60..64].to_vec(), 1.3333334f32.to_le_bytes().to_vec());
    assert_eq!(data[64..68].to_vec(), 6.5f32.to_le_bytes().to_vec());
    assert_eq!(data[76..80].to_vec(), vec![0x2c, 0x01, 0x00, 0x00]);
}

#[test]
fn invalid_parameters_reach_the_buffer_unchanged() {
    let mut sim = world_of(vec![(1, 7)], vec![CameraFrame::at_origin()]);
    let broken = RenderParameters {
        power: f32::NAN.to_bits(),
        max_iterations: 0,
        bailout: f32::NEG_INFINITY.to_bits(),
        num_steps: 0,
        min_dist: 10.0f32.to_bits(),
        max_dist: 1.0f32.to_bits(),
        zoom: (-0.0f32).to_bits(),
    };
    sim.parameters.set_render(broken);
    let mut render_world = RenderWorld::new();
    let writes = run_frame(&sim, &mut render_world, &one_buffer(7, 70));
    let block = MaterialUniformBlock::decode(&writes[0].data).unwrap();
    assert_eq!(block.render, broken);
}

#[test]
fn camera_transform_comes_back_from_the_buffer() {
    let transform = Transform::from_xyz(1.5, -2.0, 7.25)
        .with_rotation(Quat::from_rotation_y(0.7) * Quat::from_rotation_x(-0.3));
    let sim = world_of(vec![(1, 7)], vec![frame_of(&transform)]);
    let mut render_world = RenderWorld::new();
    let writes = run_frame(&sim, &mut render_world, &one_buffer(7, 70));
    let block = MaterialUniformBlock::decode(&writes[0].data).unwrap();
    let back = |v: Vector3| Vec3::new(f32::from_bits(v.x), f32::from_bits(v.y), f32::from_bits(v.z));
    assert_eq!(back(block.camera.position), transform.translation);
    assert_eq!(back(block.camera.forward), transform.forward());
    assert_eq!(back(block.camera.right), transform.right());
    assert_eq!(back(block.camera.up), transform.up());
    assert_eq!(block.camera, frame_of(&transform));
    let data = &writes[0].data;
    assert_eq!(data[0..4].to_vec(), 1.5f32.to_le_bytes().to_vec());
    assert_eq!(data[4..8].to_vec(), (-2.0f32).to_le_bytes().to_vec());
    assert_eq!(data[8..12].to_vec(), 7.25f32.to_le_bytes().to_vec());
    assert_eq!(data[16..20].to_vec(), transform.forward().x.to_le_bytes().to_vec());
    assert_eq!(data[32..36].to_vec(), transform.right().x.to_le_bytes().to_vec());
    assert_eq!(data[52..56].to_vec(), transform.up().y.to_le_bytes().to_vec());
}

#[test]
fn a_repeated_frame_repeats_its_bytes() {
    let sim = world_of(vec![(1, 7), (2, 8), (3, 7)], vec![camera_at(1.0, 2.0, 3.0)]);
    let mut table = RenderMaterials::new();
    table.insert(7, vec![BindingResource::Buffer(70)]);
    table.insert(8, vec![BindingResource::Buffer(80), BindingResource::Buffer(81)]);
    let mut render_world = RenderWorld::new();
    let first = run_frame(&sim, &mut render_world, &table);
    let mirrors = render_world.mirrors().clone();
    let second = run_frame(&sim, &mut render_world, &table);
    assert_eq!(first, second);
    assert_eq!(render_world.mirrors(), &mirrors);
    assert_eq!(first.len(), 4);

    let mut gpu_once: HashMap<u64, Vec<u8>> = HashMap::new();
    apply(&mut gpu_once, &first);
    let mut gpu_twice = gpu_once.clone();
    apply(&mut gpu_twice, &second);
    assert_eq!(gpu_once, gpu_twice);
}

#[test]
fn an_unresolved_material_gets_no_write() {
    let sim = world_of(vec![(1, 7)], vec![CameraFrame::at_origin()]);
    let mut render_world = RenderWorld::new();
    let writes = run_frame(&sim, &mut render_world, &RenderMaterials::new());
    assert!(writes.is_empty());
    assert_eq!(render_world.mirror(1).unwrap().material, 7);

    let writes = run_frame(&sim, &mut render_world, &one_buffer(8, 80));
    assert!(writes.is_empty());

    let writes = run_frame(&sim, &mut render_world, &one_buffer(7, 70));
    assert_eq!(writes.len(), 1);
}

#[test]
fn only_resolved_materials_are_written() {
    let sim = world_of(vec![(1, 7), (2, 8), (3, 9)], vec![CameraFrame::at_origin()]);
    let mut render_world = RenderWorld::new();
    let writes = run_frame(&sim, &mut render_world, &one_buffer(8, 80));
    assert_eq!(writes.len(), 1);
    assert_eq!(writes[0].buffer, 80);
}

#[test]
fn without_a_camera_nothing_is_attached_and_nothing_is_written() {
    let sim = world_of(vec![(1, 7), (2, 7)], vec![]);
    let mut render_world = RenderWorld::new();
    let writes = run_frame(&sim, &mut render_world, &one_buffer(7, 70));
    assert!(writes.is_empty());
    assert_eq!(
        render_world.mirrors(),
        &vec![
            MirrorEntity { entity: 1, material: 7, transform: None },
            MirrorEntity { entity: 2, material: 7, transform: None },
        ]
    );
}

#[test]
fn without_a_camera_a_kept_mirror_keeps_its_frame() {
    let mut sim = world_of(vec![(1, 7)], vec![camera_at(4.0, 5.0, 6.0)]);
    let table = one_buffer(7, 70);
    let mut render_world = RenderWorld::new();
    run_frame(&sim, &mut render_world, &table);
    sim.cameras.clear();
    let writes = run_frame(&sim, &mut render_world, &table);
    assert_eq!(render_world.mirror(1).unwrap().transform, Some(camera_at(4.0, 5.0, 6.0)));
    assert_eq!(writes.len(), 1);
    render_world.clear_entities();
    let writes = run_frame(&sim, &mut render_world, &table);
    assert_eq!(render_world.mirror(1).unwrap().transform, None);
    assert!(writes.is_empty());
}

#[test]
fn the_last_camera_of_the_list_is_the_frames_camera() {
    let first = camera_at(1.0, 1.0, 1.0);
    let second = camera_at(2.0, 2.0, 2.0);
    let third = camera_at(3.0, 3.0, 3.0);
    let sim = world_of(vec![(1, 7), (2, 7)], vec![first, second, third]);
    let mut render_world = RenderWorld::new();
    let writes = run_frame(&sim, &mut render_world, &one_buffer(7, 70));
    assert_eq!(render_world.mirror(1).unwrap().transform, Some(third));
    assert_eq!(render_world.mirror(2).unwrap().transform, Some(third));
    for write in &writes {
        assert_eq!(MaterialUniformBlock::decode(&write.data).unwrap().camera, third);
    }
    let sim = world_of(vec![(1, 7)], vec![third, first]);
    run_frame(&sim, &mut render_world, &one_buffer(7, 70));
    assert_eq!(render_world.mirror(1).unwrap().transform, Some(first));
}

#[test]
fn a_mirror_has_the_identity_of_its_entity() {
    let a = Entity::from_raw(3).to_bits();
    let b = Entity::from_raw(11).to_bits();
    let sim = world_of(vec![(a, 7), (b, 8)], vec![CameraFrame::at_origin()]);
    let mut render_world = RenderWorld::new();
    extract_raymarching_material(&sim, &mut render_world);
    let mirrors = render_world.mirrors();
    assert_eq!(mirrors.len(), 2);
    assert_eq!(Entity::from_bits(mirrors[0].entity), Entity::from_raw(3));
    assert_eq!(Entity::from_bits(mirrors[1].entity), Entity::from_raw(11));
    assert_eq!(mirrors[0].material, 7);
    assert_eq!(mirrors[1].material, 8);
    assert_eq!(render_world.position(b), Some(1));
    assert_eq!(render_world.position(99), None);
    assert_eq!(render_world.mirror(99), None);
}

#[test]
fn a_mirror_is_reused_not_doubled() {
    let mut render_world = RenderWorld::new();
    let table = one_buffer(7, 70);
    let sim = world_of(vec![(1, 7), (2, 7)], vec![camera_at(1.0, 0.0, 0.0)]);
    run_frame(&sim, &mut render_world, &table);
    let sim = world_of(vec![(2, 9), (3, 7), (2, 8)], vec![camera_at(2.0, 0.0, 0.0)]);
    run_frame(&sim, &mut render_world, &table);
    assert_eq!(
        render_world.mirrors(),
        &vec![
            MirrorEntity { entity: 1, material: 7, transform: Some(camera_at(1.0, 0.0, 0.0)) },
            MirrorEntity { entity: 2, material: 8, transform: Some(camera_at(2.0, 0.0, 0.0)) },
            MirrorEntity { entity: 3, material: 7, transform: Some(camera_at(2.0, 0.0, 0.0)) },
        ]
    );
}

#[test]
fn spawn_or_update_keeps_places_and_adds_behind() {
    let mut render_world = RenderWorld::new();
    render_world.spawn_or_update(5, 1, None);
    render_world.spawn_or_update(6, 2, Some(camera_at(1.0, 1.0, 1.0)));
    render_world.spawn_or_update(5, 3, Some(camera_at(2.0, 2.0, 2.0)));
    render_world.spawn_or_update(6, 4, None);
    assert_eq!(
        render_world.mirrors(),
        &vec![
            MirrorEntity { entity: 5, material: 3, transform: Some(camera_at(2.0, 2.0, 2.0)) },
            MirrorEntity { entity: 6, material: 4, transform: Some(camera_at(1.0, 1.0, 1.0)) },
        ]
    );
}

#[test]
fn extraction_replaces_the_parameters_as_a_whole() {
    let mut sim = world_of(vec![], vec![]);
    let mut render_world = RenderWorld::new();
    assert_eq!(render_world.parameters().render, RenderParameters::defaults());
    let wanted = ParameterSnapshot {
        render: RenderParameters {
            power: 2.0f32.to_bits(),
            max_iterations: 3,
            bailout: 4.0f32.to_bits(),
            num_steps: 5,
            min_dist: 6.0f32.to_bits(),
            max_dist: 7.0f32.to_bits(),
            zoom: 8.0f32.to_bits(),
        },
        view: ViewParameters { aspect_ratio: 9.0f32.to_bits() },
    };
    sim.parameters.set(wanted);
    extract_raymarching_material(&sim, &mut render_world);
    assert_eq!(render_world.parameters(), wanted);
    assert_eq!(sim.parameters.get(), wanted);
    sim.parameters.set_view(ViewParameters::defaults());
    assert_eq!(render_world.parameters(), wanted);
    extract_raymarching_material(&sim, &mut render_world);
    assert_eq!(render_world.parameters().view, ViewParameters::defaults());
    assert_eq!(render_world.parameters().render, wanted.render);
}

#[test]
fn extraction_leaves_the_simulation_world_alone() {
    let sim = world_of(vec![(1, 7), (2, 8)], vec![camera_at(1.0, 2.0, 3.0)]);
    let materials = sim.materials.clone();
    let cameras = sim.cameras.clone();
    let parameters = sim.parameters.get();
    let mut render_world = RenderWorld::new();
    extract_raymarching_material(&sim, &mut render_world);
    assert_eq!(sim.materials, materials);
    assert_eq!(sim.cameras, cameras);
    assert_eq!(sim.parameters.get(), parameters);
}

#[test]
fn every_buffer_binding_gets_the_whole_block_at_offset_zero() {
    let sim = world_of(vec![(1, 7)], vec![camera_at(0.5, 0.5, 0.5)]);
    let mut table = RenderMaterials::new();
    table.insert(
        7,
        vec![
            BindingResource::TextureView,
            BindingResource::Buffer(70),
            BindingResource::Sampler,
            BindingResource::Buffer(71),
        ],
    );
    let mut render_world = RenderWorld::new();
    let writes = run_frame(&sim, &mut render_world, &table);
    let block = MaterialUniformBlock::new(
        camera_at(0.5, 0.5, 0.5),
        ViewParameters::defaults(),
        RenderParameters::defaults(),
    );
    assert_eq!(
        writes,
        vec![
            BufferWrite { buffer: 70, offset: 0, data: block.encode() },
            BufferWrite { buffer: 71, offset: 0, data: block.encode() },
        ]
    );
}

#[test]
fn a_material_without_a_buffer_gets_no_write() {
    let sim = world_of(vec![(1, 7)], vec![CameraFrame::at_origin()]);
    let mut table = RenderMaterials::new();
    table.insert(7, vec![BindingResource::TextureView, BindingResource::Sampler]);
    let mut render_world = RenderWorld::new();
    assert!(run_frame(&sim, &mut render_world, &table).is_empty());
    table.insert(7, vec![]);
    assert!(run_frame(&sim, &mut render_world, &table).is_empty());
}

#[test]
fn entities_that_share_a_material_write_the_same_buffer() {
    let sim = world_of(vec![(1, 7), (2, 7)], vec![camera_at(9.0, 9.0, 9.0)]);
    let mut render_world = RenderWorld::new();
    let writes = run_frame(&sim, &mut render_world, &one_buffer(7, 70));
    assert_eq!(writes.len(), 2);
    assert_eq!(writes[0], writes[1]);
    assert_eq!(writes[0].buffer, 70);
}

#[test]
fn the_table_keeps_the_last_resource_of_a_handle() {
    let mut table = RenderMaterials::new();
    assert_eq!(table.get(7), None);
    table.insert(7, vec![BindingResource::Buffer(70)]);
    table.insert(8, vec![BindingResource::Sampler]);
    table.insert(7, vec![BindingResource::Buffer(71)]);
    assert_eq!(table.get(7), Some(&vec![BindingResource::Buffer(71)]));
    assert_eq!(table.get(8), Some(&vec![BindingResource::Sampler]));
    assert_eq!(table.get(9), None);
}

#[test]
fn clearing_drops_the_mirrors_and_keeps_the_parameters() {
    let mut sim = world_of(vec![(1, 7)], vec![CameraFrame::at_origin()]);
    let mut changed = RenderParameters::defaults();
    changed.zoom = 4.0f32.to_bits();
    sim.parameters.set_render(changed);
    let mut render_world = RenderWorld::new();
    extract_raymarching_material(&sim, &mut render_world);
    assert_eq!(render_world.mirrors().len(), 1);
    render_world.clear_entities();
    assert!(render_world.mirrors().is_empty());
    assert_eq!(render_world.parameters().render, changed);
    assert!(prepare_raymarching_material(&one_buffer(7, 70), &render_world).is_empty());
}

#[test]
fn an_empty_world_writes_nothing() {
    let render_world = RenderWorld::new();
    assert!(prepare_raymarching_material(&RenderMaterials::new(), &render_world).is_empty());
    let sim = world_of(vec![], vec![CameraFrame::at_origin()]);
    let mut render_world = RenderWorld::new();
    assert!(run_frame(&sim, &mut render_world, &one_buffer(7, 70)).is_empty());
    assert!(render_world.mirrors().is_empty());
}
