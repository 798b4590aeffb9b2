//! The two worlds of a frame: what the simulation side shows, and the render
//! side's mirror of it.
//!
//! The worlds share nothing. The simulation world is read, never written; the
//! render world holds copies, one mirror entity for each identity, and keeps
//! them until it is cleared.

use vstd::prelude::*;
use crate::camera::CameraFrame;
use crate::parameters::{ParameterSnapshot, ParameterStore, RenderParameters, ViewParameters};

verus! {

/// A simulation-side entity that carries a material handle.
#[derive(Clone, Copy, Debug, PartialEq, Eq, Structural)]
pub struct MaterialEntity {
    /// The entity's identity.
    pub entity: u64,
    /// The handle of its material.
    pub material: u64,
}

/// What extraction reads of the simulation world.
#[derive(Clone, Debug)]
pub struct SimulationWorld {
    /// The entities that carry a material handle, in the order in which they
    /// are visited.
    pub materials: Vec<MaterialEntity>,
    /// The frames of the camera entities, in the order in which they are
    /// visited. The last one is the frame's camera.
    pub cameras: Vec<CameraFrame>,
    /// The current parameters.
    pub parameters: ParameterStore,
}

/// The simulation world as a value.
pub struct SimulationView {
    pub materials: Seq<MaterialEntity>,
    pub cameras: Seq<CameraFrame>,
    pub parameters: ParameterSnapshot,
}

impl View for SimulationWorld {
    type V = SimulationView;

    open spec fn view(&self) -> SimulationView {
        SimulationView {
            materials: self.materials@,
            cameras: self.cameras@,
            parameters: self.parameters@,
        }
    }
}

/// The render-side copy of an entity: the same identity, the material handle,
/// and the camera frame if one was attached.
#[derive(Clone, Copy, Debug, PartialEq, Eq)]
pub struct MirrorEntity {
    pub entity: u64,
    pub material: u64,
    pub transform: Option<CameraFrame>,
}

/// The render world as a value: its mirror entities in the order in which
/// they were created, and its copy of the parameters.
pub struct RenderWorldView {
    pub mirrors: Seq<MirrorEntity>,
    pub parameters: ParameterSnapshot,
}

/// The render side's state.
#[derive(Clone, Debug)]
pub struct RenderWorld {
    mirrors: Vec<MirrorEntity>,
    parameters: ParameterSnapshot,
}

/// Some mirror has this identity.
pub open spec fn has_entity(mirrors: Seq<MirrorEntity>, entity: u64) -> bool {
    exists|k: int| 0 <= k < mirrors.len() && #[trigger] mirrors[k].entity == entity
}

/// No two mirrors have the same identity.
pub open spec fn distinct_entities(mirrors: Seq<MirrorEntity>) -> bool {
    forall|i: int, j: int|
        0 <= i < j < mirrors.len() ==> #[trigger] mirrors[i].entity != #[trigger] mirrors[j].entity
}

/// Where the mirror with this identity stands, if there is one.
pub open spec fn position_of(mirrors: Seq<MirrorEntity>, entity: u64) -> int {
    choose|k: int| 0 <= k < mirrors.len() && #[trigger] mirrors[k].entity == entity
}

/// The camera frame that a mirror has after `camera` was offered to it: the
/// offered one, or, if none was offered, the one it had.
pub open spec fn attached_transform(
    camera: Option<CameraFrame>,
    before: Option<CameraFrame>,
) -> Option<CameraFrame> {
    if camera.is_some() {
        camera
    } else {
        before
    }
}

/// The mirrors after one entity was copied over. A mirror with the entity's
/// identity is reused: it keeps its place, takes the material handle, and
/// takes the camera frame if one is offered. Without such a mirror a new one
/// is created behind the others.
pub open spec fn attach(
    mirrors: Seq<MirrorEntity>,
    entity: u64,
    material: u64,
    camera: Option<CameraFrame>,
) -> Seq<MirrorEntity> {
    if has_entity(mirrors, entity) {
        let k = position_of(mirrors, entity);
        mirrors.update(
            k,
            MirrorEntity {
                entity,
                material,
                transform: attached_transform(camera, mirrors[k].transform),
            },
        )
    } else {
        mirrors.push(MirrorEntity { entity, material, transform: camera })
    }
}

impl View for RenderWorld {
    type V = RenderWorldView;

    closed spec fn view(&self) -> RenderWorldView {
        RenderWorldView { mirrors: self.mirrors@, parameters: self.parameters }
    }
}

impl RenderWorld {
    /// Every identity has at most one mirror.
    pub open spec fn well_formed(self) -> bool {
        distinct_entities(self@.mirrors)
    }

    /// A render world without mirrors that holds the default parameters.
    pub fn new() -> (world: RenderWorld)
        ensures
            world.well_formed(),
            world@.mirrors.len() == 0,
            world@.parameters.render == RenderParameters::spec_defaults(),
            world@.parameters.view == ViewParameters::spec_defaults(),
    {
        RenderWorld {
            mirrors: Vec::new(),
            parameters: ParameterSnapshot {
                render: RenderParameters::defaults(),
                view: ViewParameters::defaults(),
            },
        }
    }

    /// Drops every mirror and keeps the parameters: the start of a frame in a
    /// renderer that rebuilds its entities each frame.
    pub fn clear_entities(&mut self)
        ensures
            final(self).well_formed(),
            final(self)@.mirrors.len() == 0,
            final(self)@.parameters == old(self)@.parameters,
    {
        self.mirrors.clear();
    }

    /// The mirrors, in the order in which they were created.
    pub fn mirrors(&self) -> (mirrors: &Vec<MirrorEntity>)
        ensures
            mirrors@ == self@.mirrors,
    {
        &self.mirrors
    }

    /// The render side's copy of the parameters.
    pub fn parameters(&self) -> (parameters: ParameterSnapshot)
        ensures
            parameters == self@.parameters,
    {
        self.parameters
    }

    /// Replaces the render side's copy of the parameters.
    pub fn insert_parameters(&mut self, parameters: ParameterSnapshot)
        ensures
            final(self)@.parameters == parameters,
            final(self)@.mirrors == old(self)@.mirrors,
    {
        self.parameters = parameters;
    }

    /// Where the mirror with this identity stands.
    pub fn position(&self, entity: u64) -> (found: Option<usize>)
        ensures
            found.is_some() <==> has_entity(self@.mirrors, entity),
            found matches Some(k) ==> k < self@.mirrors.len() && self@.mirrors[k as int].entity
                == entity && forall|j: int|
                0 <= j < k ==> (#[trigger] self@.mirrors[j]).entity != entity,
            found.is_some() && self.well_formed() ==> found == Some(
                position_of(self@.mirrors, entity) as usize,
            ),
    {
        let mut i: usize = 0;
        while i < self.mirrors.len()
            invariant
                i <= self.mirrors@.len(),
                forall|k: int| 0 <= k < i ==> (#[trigger] self.mirrors@[k]).entity != entity,
            decreases self.mirrors@.len() - i,
        {
            if self.mirrors[i].entity == entity {
                return Some(i);
            }
            i = i + 1;
        }
        None
    }

    /// The mirror with this identity.
    pub fn mirror(&self, entity: u64) -> (found: Option<MirrorEntity>)
        ensures
            found.is_some() <==> has_entity(self@.mirrors, entity),
            found matches Some(m) ==> m.entity == entity && exists|k: int|
                0 <= k < self@.mirrors.len() && #[trigger] self@.mirrors[k] == m && forall|j: int|
                    0 <= j < k ==> (#[trigger] self@.mirrors[j]).entity != entity,
            found.is_some() && self.well_formed() ==> found == Some(
                self@.mirrors[position_of(self@.mirrors, entity)],
            ),
    {
        match self.position(entity) {
            Some(k) => Some(self.mirrors[k]),
            None => None,
        }
    }

    /// Copies one entity over: reuses the mirror with its identity or creates
    /// one, attaches the material handle, and attaches the camera frame if
    /// there is one.
    pub fn spawn_or_update(&mut self, entity: u64, material: u64, camera: Option<CameraFrame>)
        requires
            old(self).well_formed(),
        ensures
            final(self).well_formed(),
            final(self)@.parameters == old(self)@.parameters,
            final(self)@.mirrors == attach(old(self)@.mirrors, entity, material, camera),
    {
        match self.position(entity) {
            Some(k) => {
                let before = self.mirrors[k].transform;
                let transform = if camera.is_some() {
                    camera
                } else {
                    before
                };
                self.mirrors.set(k, MirrorEntity { entity, material, transform });
            },
            None => {
                self.mirrors.push(MirrorEntity { entity, material, transform: camera });
            },
        }
    }
}

} // verus!
