//! Extraction: the one copy from the simulation world into the render world.
//!
//! Every entity that carries a material handle gets a mirror with its
//! identity, its handle and the frame's camera. The frame's camera is the
//! last one of the simulation world's camera list: with several cameras the
//! list's order decides. With none no frame is attached: a new mirror then
//! has no camera frame, and a mirror that is reused keeps the one it had. The
//! render world's parameters are replaced as a whole.

use vstd::prelude::*;
use crate::camera::CameraFrame;
use crate::world::{
    MaterialEntity, MirrorEntity, RenderWorld, RenderWorldView, SimulationView, SimulationWorld,
    attach, attached_transform, distinct_entities, has_entity, position_of,
};

verus! {

/// The camera of a frame: the last of the list, if there is one.
pub open spec fn designated_camera(cameras: Seq<CameraFrame>) -> Option<CameraFrame> {
    if cameras.len() == 0 {
        None
    } else {
        Some(cameras.last())
    }
}

/// The mirrors after the listed entities were copied over, one after the
/// other in the list's order.
pub open spec fn extract_mirrors(
    mirrors: Seq<MirrorEntity>,
    materials: Seq<MaterialEntity>,
    camera: Option<CameraFrame>,
) -> Seq<MirrorEntity>
    decreases materials.len(),
{
    if materials.len() == 0 {
        mirrors
    } else {
        attach(
            extract_mirrors(mirrors, materials.drop_last(), camera),
            materials.last().entity,
            materials.last().material,
            camera,
        )
    }
}

/// Some listed entity has this identity.
pub open spec fn is_listed(materials: Seq<MaterialEntity>, entity: u64) -> bool {
    exists|i: int| 0 <= i < materials.len() && #[trigger] materials[i].entity == entity
}

/// The material handle that the list gives an identity: that of its last
/// entry with the identity.
pub open spec fn listed_material(materials: Seq<MaterialEntity>, entity: u64) -> u64
    recommends
        is_listed(materials, entity),
    decreases materials.len(),
{
    if materials.len() == 0 {
        0
    } else if materials.last().entity == entity {
        materials.last().material
    } else {
        listed_material(materials.drop_last(), entity)
    }
}

/// The render world after extraction: the mirrors after every listed entity
/// was copied over with the frame's camera, and the simulation side's
/// parameters in place of the ones that were there.
pub open spec fn extracted(world: RenderWorldView, sim: SimulationView) -> RenderWorldView {
    RenderWorldView {
        mirrors: extract_mirrors(world.mirrors, sim.materials, designated_camera(sim.cameras)),
        parameters: sim.parameters,
    }
}

/// Picks the camera of a frame.
pub fn choose_camera(cameras: &Vec<CameraFrame>) -> (camera: Option<CameraFrame>)
    ensures
        camera == designated_camera(cameras@),
{
    if cameras.len() == 0 {
        None
    } else {
        Some(cameras[cameras.len() - 1])
    }
}

/// Copies the simulation world's state of this frame into the render world.
///
/// Each entity with a material handle gets or keeps its mirror, with the
/// handle and the frame's camera attached; mirrors of other identities stay
/// as they are. The render world's parameters become the store's current
/// ones. The simulation world is not changed.
pub fn extract_raymarching_material(sim: &SimulationWorld, render_world: &mut RenderWorld)
    requires
        old(render_world).well_formed(),
    ensures
        final(render_world).well_formed(),
        final(render_world)@ == extracted(old(render_world)@, sim@),
{
    let camera = choose_camera(&sim.cameras);
    let mut i: usize = 0;
    while i < sim.materials.len()
        invariant
            i <= sim.materials@.len(),
            render_world.well_formed(),
            render_world@.parameters == old(render_world)@.parameters,
            render_world@.mirrors == extract_mirrors(
                old(render_world)@.mirrors,
                sim.materials@.take(i as int),
                camera,
            ),
        decreases sim.materials@.len() - i,
    {
        let item = sim.materials[i];
        proof {
            let next = sim.materials@.take(i + 1);
            assert(next.drop_last() =~= sim.materials@.take(i as int));
            assert(next.last() == item);
        }
        render_world.spawn_or_update(item.entity, item.material, camera);
        i = i + 1;
    }
    proof {
        assert(sim.materials@.take(i as int) =~= sim.materials@);
    }
    render_world.insert_parameters(sim.parameters.get());
}

/// The camera frame that the mirror at a place had before: none for a place
/// behind the mirrors that there were.
pub open spec fn prior_transform(mirrors: Seq<MirrorEntity>, place: int) -> Option<CameraFrame> {
    if 0 <= place < mirrors.len() {
        mirrors[place].transform
    } else {
        None
    }
}

/// What copying one entity over does to each mirror: the mirrors that there
/// were keep their places and identities, the one with the entity's identity
/// takes the handle and the offered frame, the others are untouched, and a
/// mirror is added exactly when the identity had none.
pub proof fn lemma_attach(
    mirrors: Seq<MirrorEntity>,
    entity: u64,
    material: u64,
    camera: Option<CameraFrame>,
)
    requires
        distinct_entities(mirrors),
    ensures
        ({
            let after = attach(mirrors, entity, material, camera);
            &&& distinct_entities(after)
            &&& has_entity(mirrors, entity) ==> after.len() == mirrors.len()
            &&& !has_entity(mirrors, entity) ==> after.len() == mirrors.len() + 1 && after.last()
                == (MirrorEntity { entity, material, transform: camera })
            &&& forall|k: int|
                0 <= k < mirrors.len() && mirrors[k].entity != entity ==> #[trigger] after[k]
                    == mirrors[k]
            &&& forall|k: int|
                0 <= k < mirrors.len() && mirrors[k].entity == entity ==> #[trigger] after[k] == (
                MirrorEntity {
                    entity,
                    material,
                    transform: attached_transform(camera, mirrors[k].transform),
                })
            &&& has_entity(after, entity)
            &&& forall|other: u64|
                has_entity(after, other) <==> has_entity(mirrors, other) || other == entity
        }),
{
    let after = attach(mirrors, entity, material, camera);
    if has_entity(mirrors, entity) {
        let place = position_of(mirrors, entity);
        assert(after[place].entity == entity);
        assert forall|other: u64| has_entity(after, other) implies has_entity(mirrors, other)
            || other == entity by {
            let k = choose|k: int| 0 <= k < after.len() && #[trigger] after[k].entity == other;
            assert(mirrors[k].entity == other);
        }
        assert forall|other: u64| has_entity(mirrors, other) implies has_entity(after, other) by {
            let k = choose|k: int| 0 <= k < mirrors.len() && #[trigger] mirrors[k].entity == other;
            assert(after[k].entity == other);
        }
    } else {
        assert(after[mirrors.len() as int].entity == entity);
        assert forall|other: u64| has_entity(after, other) implies has_entity(mirrors, other)
            || other == entity by {
            let k = choose|k: int| 0 <= k < after.len() && #[trigger] after[k].entity == other;
            if k < mirrors.len() {
                assert(mirrors[k].entity == other);
            }
        }
        assert forall|other: u64| has_entity(mirrors, other) implies has_entity(after, other) by {
            let k = choose|k: int| 0 <= k < mirrors.len() && #[trigger] mirrors[k].entity == other;
            assert(after[k].entity == other);
        }
        assert forall|i: int, j: int| 0 <= i < j < after.len() implies #[trigger] after[i].entity
            != #[trigger] after[j].entity by {
            if j == mirrors.len() {
                assert(mirrors[i].entity != entity);
            }
        }
    }
}

/// An identity is listed when the list's last entry has it or an earlier one
/// does, and its handle is then the last entry's or the earlier list's.
pub proof fn lemma_listed_step(materials: Seq<MaterialEntity>, entity: u64)
    requires
        materials.len() > 0,
    ensures
        is_listed(materials, entity) <==> materials.last().entity == entity || is_listed(
            materials.drop_last(),
            entity,
        ),
        materials.last().entity == entity ==> listed_material(materials, entity)
            == materials.last().material,
        materials.last().entity != entity ==> listed_material(materials, entity)
            == listed_material(materials.drop_last(), entity),
{
    let earlier = materials.drop_last();
    if is_listed(materials, entity) && materials.last().entity != entity {
        let i = choose|i: int| 0 <= i < materials.len() && #[trigger] materials[i].entity == entity;
        assert(earlier[i].entity == entity);
    }
    if is_listed(earlier, entity) {
        let i = choose|i: int| 0 <= i < earlier.len() && #[trigger] earlier[i].entity == entity;
        assert(materials[i].entity == entity);
    }
    if materials.last().entity == entity {
        assert(materials[materials.len() - 1].entity == entity);
    }
}

/// The handle that the list gives a listed identity is the handle of one of
/// the list's entries with that identity.
pub proof fn lemma_listed_material_is_listed(
    materials: Seq<MaterialEntity>,
    entity: u64,
)
    requires
        is_listed(materials, entity),
    ensures
        exists|i: int|
            0 <= i < materials.len() && (#[trigger] materials[i]).entity == entity
                && materials[i].material == listed_material(materials, entity),
    decreases materials.len(),
{
    lemma_listed_step(materials, entity);
    if materials.last().entity == entity {
        assert(materials[materials.len() - 1].entity == entity);
    } else {
        let earlier = materials.drop_last();
        lemma_listed_material_is_listed(earlier, entity);
        let i = choose|i: int|
            0 <= i < earlier.len() && (#[trigger] earlier[i]).entity == entity
                && earlier[i].material == listed_material(earlier, entity);
        assert(materials[i] == earlier[i]);
    }
}

/// What extraction does to each mirror.
///
/// The mirrors that there were keep their places and identities, and no two
/// mirrors share an identity. A mirror behind them belongs to a listed
/// entity. The mirror of a listed entity holds the handle that the list gives
/// the entity, and the frame's camera; without a camera it holds the frame it
/// had, a new mirror none. The mirror of an identity that is not listed is
/// untouched. Every listed entity has a mirror.
pub proof fn lemma_extract_mirrors(
    mirrors: Seq<MirrorEntity>,
    materials: Seq<MaterialEntity>,
    camera: Option<CameraFrame>,
)
    requires
        distinct_entities(mirrors),
    ensures
        ({
            let after = extract_mirrors(mirrors, materials, camera);
            &&& distinct_entities(after)
            &&& after.len() >= mirrors.len()
            &&& forall|k: int|
                0 <= k < mirrors.len() ==> (#[trigger] after[k]).entity == mirrors[k].entity
            &&& forall|k: int|
                mirrors.len() <= k < after.len() ==> is_listed(
                    materials,
                    (#[trigger] after[k]).entity,
                )
            &&& forall|k: int|
                0 <= k < after.len() && is_listed(materials, (#[trigger] after[k]).entity) ==> {
                    &&& after[k].material == listed_material(materials, after[k].entity)
                    &&& after[k].transform == attached_transform(
                        camera,
                        prior_transform(mirrors, k),
                    )
                }
            &&& forall|k: int|
                0 <= k < mirrors.len() && !is_listed(materials, mirrors[k].entity)
                    ==> #[trigger] after[k] == mirrors[k]
            &&& forall|entity: u64|
                has_entity(after, entity) <==> has_entity(mirrors, entity) || is_listed(
                    materials,
                    entity,
                )
        }),
    decreases materials.len(),
{
    let after = extract_mirrors(mirrors, materials, camera);
    if materials.len() == 0 {
        assert forall|entity: u64| !is_listed(materials, entity) by {}
    } else {
        let earlier = materials.drop_last();
        let last = materials.last();
        let middle = extract_mirrors(mirrors, earlier, camera);
        lemma_extract_mirrors(mirrors, earlier, camera);
        lemma_attach(middle, last.entity, last.material, camera);
        assert forall|entity: u64|
            has_entity(after, entity) <==> has_entity(mirrors, entity) || is_listed(
                materials,
                entity,
            ) by {
            lemma_listed_step(materials, entity);
        }
        assert forall|k: int| 0 <= k < mirrors.len() implies (#[trigger] after[k]).entity
            == mirrors[k].entity by {
            assert(middle[k].entity == mirrors[k].entity);
        }
        assert forall|k: int| mirrors.len() <= k < after.len() implies is_listed(
            materials,
            (#[trigger] after[k]).entity,
        ) by {
            lemma_listed_step(materials, after[k].entity);
            if k < middle.len() {
                assert(is_listed(earlier, middle[k].entity));
                if middle[k].entity != last.entity {
                    assert(after[k] == middle[k]);
                }
            }
        }
        assert forall|k: int|
            0 <= k < after.len() && is_listed(materials, (#[trigger] after[k]).entity) implies {
            &&& after[k].material == listed_material(materials, after[k].entity)
            &&& after[k].transform == attached_transform(camera, prior_transform(mirrors, k))
        } by {
            lemma_listed_step(materials, after[k].entity);
            if k < middle.len() {
                if middle[k].entity != last.entity {
                    assert(after[k] == middle[k]);
                } else if !is_listed(earlier, middle[k].entity) {
                    assert(k < mirrors.len());
                    assert(middle[k] == mirrors[k]);
                }
            } else {
                assert(!has_entity(middle, last.entity));
                assert(k == middle.len());
            }
        }
        assert forall|k: int|
            0 <= k < mirrors.len() && !is_listed(materials, mirrors[k].entity)
                implies #[trigger] after[k] == mirrors[k] by {
            lemma_listed_step(materials, mirrors[k].entity);
            assert(middle[k] == mirrors[k]);
        }
    }
}

/// Every listed entity has exactly one mirror after extraction, and that
/// mirror has the entity's identity, the handle that the list gives it, and
/// the frame's camera if the frame has one.
pub proof fn lemma_extraction_mirrors_each_entity(
    mirrors: Seq<MirrorEntity>,
    materials: Seq<MaterialEntity>,
    camera: Option<CameraFrame>,
    index: int,
)
    requires
        distinct_entities(mirrors),
        0 <= index < materials.len(),
    ensures
        ({
            let after = extract_mirrors(mirrors, materials, camera);
            let entity = materials[index].entity;
            let place = position_of(after, entity);
            &&& has_entity(after, entity)
            &&& 0 <= place < after.len()
            &&& after[place].entity == entity
            &&& after[place].material == listed_material(materials, entity)
            &&& camera.is_some() ==> after[place].transform == camera
            &&& forall|k: int| 0 <= k < after.len() && after[k].entity == entity ==> k == place
        }),
{
    lemma_extract_mirrors(mirrors, materials, camera);
    let after = extract_mirrors(mirrors, materials, camera);
    let entity = materials[index].entity;
    assert(is_listed(materials, entity));
    assert(has_entity(after, entity));
}

/// Without a camera extraction attaches no frame: a mirror that there was
/// keeps the frame it had or keeps having none, and a new mirror has none.
pub proof fn lemma_extraction_without_camera(
    mirrors: Seq<MirrorEntity>,
    materials: Seq<MaterialEntity>,
    place: int,
)
    requires
        distinct_entities(mirrors),
        0 <= place < extract_mirrors(mirrors, materials, None).len(),
    ensures
        extract_mirrors(mirrors, materials, None)[place].transform == prior_transform(
            mirrors,
            place,
        ),
{
    lemma_extract_mirrors(mirrors, materials, None);
    let after = extract_mirrors(mirrors, materials, None);
    if !is_listed(materials, after[place].entity) {
        assert(place < mirrors.len());
        assert(after[place].entity == mirrors[place].entity);
    }
}

/// Extraction is idempotent: a second extraction from the same simulation
/// state leaves the mirrors as the first one left them.
pub proof fn lemma_extraction_idempotent(
    mirrors: Seq<MirrorEntity>,
    materials: Seq<MaterialEntity>,
    camera: Option<CameraFrame>,
)
    requires
        distinct_entities(mirrors),
    ensures
        extract_mirrors(extract_mirrors(mirrors, materials, camera), materials, camera)
            == extract_mirrors(mirrors, materials, camera),
{
    let once = extract_mirrors(mirrors, materials, camera);
    let twice = extract_mirrors(once, materials, camera);
    lemma_extract_mirrors(mirrors, materials, camera);
    lemma_extract_mirrors(once, materials, camera);
    if twice.len() > once.len() {
        let extra = twice[once.len() as int];
        assert(is_listed(materials, extra.entity));
        assert(has_entity(once, extra.entity));
        let k = choose|k: int| 0 <= k < once.len() && #[trigger] once[k].entity == extra.entity;
        assert(twice[k].entity == once[k].entity);
        assert(false);
    }
    assert forall|k: int| 0 <= k < once.len() implies twice[k] == once[k] by {
        assert(twice[k].entity == once[k].entity);
        if is_listed(materials, once[k].entity) {
            assert(is_listed(materials, twice[k].entity));
        }
    }
    assert(twice =~= once);
}

} // verus!
