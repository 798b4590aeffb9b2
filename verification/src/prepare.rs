//! Buffer preparation: which buffers a frame overwrites, and with what.
//!
//! For each mirror that has a camera frame and whose material is resolved,
//! every buffer-backed binding of the material gets one write: the whole
//! uniform block, at offset 0. A mirror without a camera frame, or with a
//! material that has no GPU resource yet, gets none in this frame: its buffer
//! keeps what it held. Nothing is remembered about such a mirror, the next
//! frame simply looks again.
//!
//! Nothing is written here. The result is the list of writes, in the order
//! of the mirrors and of each material's bindings, for the caller to hand to
//! the GPU queue.

use std::collections::HashMap;
use vstd::prelude::*;
use crate::camera::CameraFrame;
use crate::parameters::ParameterSnapshot;
use crate::uniform_block::MaterialUniformBlock;
use crate::world::{MirrorEntity, RenderWorld, RenderWorldView};

verus! {

broadcast use vstd::std_specs::hash::group_hash_axioms;

/// One binding of a material's GPU resource.
#[derive(Clone, Copy, Debug, PartialEq, Eq, Structural)]
pub enum BindingResource {
    /// A buffer, by its identity.
    Buffer(u64),
    /// A texture view.
    TextureView,
    /// A sampler.
    Sampler,
}

/// The GPU resources of the materials that have finished uploading, by
/// material handle. A handle that is missing is not resolved yet.
#[derive(Clone, Debug)]
pub struct RenderMaterials {
    resolved: HashMap<u64, Vec<BindingResource>>,
}

/// A write that is due: all of `data` into the buffer, from `offset` on.
#[derive(Clone, Debug, PartialEq, Eq)]
pub struct BufferWrite {
    pub buffer: u64,
    pub offset: u64,
    pub data: Vec<u8>,
}

/// A due write as a value.
pub struct ScheduledWrite {
    pub buffer: u64,
    pub offset: u64,
    pub data: Seq<u8>,
}

impl View for BufferWrite {
    type V = ScheduledWrite;

    open spec fn view(&self) -> ScheduledWrite {
        ScheduledWrite { buffer: self.buffer, offset: self.offset, data: self.data@ }
    }
}

impl View for RenderMaterials {
    type V = Map<u64, Seq<BindingResource>>;

    closed spec fn view(&self) -> Map<u64, Seq<BindingResource>> {
        self.resolved@.map_values(|bindings: Vec<BindingResource>| bindings@)
    }
}

impl RenderMaterials {
    /// A table in which no material is resolved.
    pub fn new() -> (table: RenderMaterials)
        ensures
            table@ == Map::<u64, Seq<BindingResource>>::empty(),
    {
        let table = RenderMaterials { resolved: HashMap::new() };
        assert(table@ =~= Map::<u64, Seq<BindingResource>>::empty());
        table
    }

    /// Records the GPU resource of a material; one recorded before under the
    /// same handle is replaced.
    pub fn insert(&mut self, material: u64, bindings: Vec<BindingResource>)
        ensures
            final(self)@ == old(self)@.insert(material, bindings@),
    {
        self.resolved.insert(material, bindings);
        assert(self@ =~= old(self)@.insert(material, bindings@));
    }

    /// The bindings of a material's GPU resource, if the material is
    /// resolved.
    pub fn get(&self, material: u64) -> (found: Option<&Vec<BindingResource>>)
        ensures
            found.is_some() <==> self@.contains_key(material),
            found matches Some(bindings) ==> bindings@ == self@[material],
    {
        self.resolved.get(&material)
    }
}

/// The writes for one material: one for each of its bindings that is a
/// buffer, in the bindings' order, each carrying `data` to offset 0.
pub open spec fn binding_writes(bindings: Seq<BindingResource>, data: Seq<u8>) -> Seq<
    ScheduledWrite,
>
    decreases bindings.len(),
{
    if bindings.len() == 0 {
        Seq::empty()
    } else {
        let before = binding_writes(bindings.drop_last(), data);
        match bindings.last() {
            BindingResource::Buffer(buffer) => before.push(
                ScheduledWrite { buffer, offset: 0, data },
            ),
            _ => before,
        }
    }
}

/// The block that a mirror's writes carry, given the camera frame it has.
pub open spec fn mirror_block(
    camera: CameraFrame,
    parameters: ParameterSnapshot,
) -> MaterialUniformBlock {
    MaterialUniformBlock { camera, view: parameters.view, render: parameters.render }
}

/// The writes for one mirror: none without a camera frame, none while the
/// material is not resolved, else those of the material's bindings.
pub open spec fn mirror_writes(
    mirror: MirrorEntity,
    parameters: ParameterSnapshot,
    materials: Map<u64, Seq<BindingResource>>,
) -> Seq<ScheduledWrite> {
    match mirror.transform {
        Some(camera) => {
            if materials.contains_key(mirror.material) {
                binding_writes(
                    materials[mirror.material],
                    mirror_block(camera, parameters).spec_encode(),
                )
            } else {
                Seq::empty()
            }
        },
        None => Seq::empty(),
    }
}

/// The writes of a frame: those of each mirror, in the mirrors' order.
pub open spec fn frame_writes(
    mirrors: Seq<MirrorEntity>,
    parameters: ParameterSnapshot,
    materials: Map<u64, Seq<BindingResource>>,
) -> Seq<ScheduledWrite>
    decreases mirrors.len(),
{
    if mirrors.len() == 0 {
        Seq::empty()
    } else {
        frame_writes(mirrors.drop_last(), parameters, materials) + mirror_writes(
            mirrors.last(),
            parameters,
            materials,
        )
    }
}

/// The writes that preparation lists for a render world.
pub open spec fn prepared(
    world: RenderWorldView,
    materials: Map<u64, Seq<BindingResource>>,
) -> Seq<ScheduledWrite> {
    frame_writes(world.mirrors, world.parameters, materials)
}

/// The writes of a list as values.
pub open spec fn scheduled(writes: Seq<BufferWrite>) -> Seq<ScheduledWrite> {
    writes.map_values(|write: BufferWrite| write@)
}

/// Lists the buffer writes of this frame.
///
/// The render world must hold what extraction left in it. The result is in
/// the order of the mirrors, and for one mirror in the order of its
/// material's bindings; every write replaces its whole buffer.
pub fn prepare_raymarching_material(
    materials: &RenderMaterials,
    render_world: &RenderWorld,
) -> (writes: Vec<BufferWrite>)
    ensures
        scheduled(writes@) == prepared(render_world@, materials@),
{
    let mirrors = render_world.mirrors();
    let parameters = render_world.parameters();
    let mut writes: Vec<BufferWrite> = Vec::new();
    let mut i: usize = 0;
    assert(scheduled(writes@) =~= Seq::<ScheduledWrite>::empty());
    while i < mirrors.len()
        invariant
            i <= mirrors@.len(),
            scheduled(writes@) == frame_writes(mirrors@.take(i as int), parameters, materials@),
        decreases mirrors@.len() - i,
    {
        let mirror = mirrors[i];
        proof {
            let next = mirrors@.take(i + 1);
            assert(next.drop_last() =~= mirrors@.take(i as int));
            assert(next.last() == mirror);
        }
        let ghost before = scheduled(writes@);
        match mirror.transform {
            Some(camera) => {
                match materials.get(mirror.material) {
                    Some(bindings) => {
                        let block = MaterialUniformBlock::new(
                            camera,
                            parameters.view,
                            parameters.render,
                        );
                        let mut j: usize = 0;
                        assert(bindings@.take(0) =~= Seq::<BindingResource>::empty());
                        while j < bindings.len()
                            invariant
                                j <= bindings@.len(),
                                scheduled(writes@) == before + binding_writes(
                                    bindings@.take(j as int),
                                    block.spec_encode(),
                                ),
                            decreases bindings@.len() - j,
                        {
                            proof {
                                let next = bindings@.take(j + 1);
                                assert(next.drop_last() =~= bindings@.take(j as int));
                                assert(next.last() == bindings@[j as int]);
                            }
                            match bindings[j] {
                                BindingResource::Buffer(buffer) => {
                                    let data = block.encode();
                                    let ghost earlier = writes@;
                                    writes.push(BufferWrite { buffer, offset: 0, data });
                                    assert(scheduled(writes@) =~= scheduled(earlier).push(
                                        ScheduledWrite {
                                            buffer,
                                            offset: 0,
                                            data: block.spec_encode(),
                                        },
                                    ));
                                },
                                _ => {},
                            }
                            j = j + 1;
                        }
                        assert(bindings@.take(j as int) =~= bindings@);
                    },
                    None => {},
                }
            },
            None => {},
        }
        assert(scheduled(writes@) =~= before + mirror_writes(mirror, parameters, materials@));
        i = i + 1;
    }
    assert(mirrors@.take(i as int) =~= mirrors@);
    writes
}

/// Whether a write is the one that a mirror's binding calls for: to that
/// buffer, at offset 0, carrying the block of the mirror's camera frame and
/// the parameters.
pub open spec fn write_serves(
    write: ScheduledWrite,
    mirror: MirrorEntity,
    binding: int,
    parameters: ParameterSnapshot,
    materials: Map<u64, Seq<BindingResource>>,
) -> bool {
    &&& mirror.transform.is_some()
    &&& materials.contains_key(mirror.material)
    &&& 0 <= binding < materials[mirror.material].len()
    &&& materials[mirror.material][binding] == BindingResource::Buffer(write.buffer)
    &&& write.offset == 0
    &&& write.data == mirror_block(mirror.transform.unwrap(), parameters).spec_encode()
}

/// The writes for one material are those of its buffers: each write goes to
/// a binding that is a buffer and carries the data to offset 0, and each
/// binding that is a buffer has its write.
pub proof fn lemma_binding_writes(bindings: Seq<BindingResource>, data: Seq<u8>)
    ensures
        binding_writes(bindings, data).len() <= bindings.len(),
        forall|n: int|
            0 <= n < binding_writes(bindings, data).len() ==> {
                let write = #[trigger] binding_writes(bindings, data)[n];
                &&& write.offset == 0
                &&& write.data == data
                &&& exists|j: int|
                    0 <= j < bindings.len() && #[trigger] bindings[j] == BindingResource::Buffer(
                        write.buffer,
                    )
            },
        forall|j: int|
            0 <= j < bindings.len() ==> (#[trigger] bindings[j] matches BindingResource::Buffer(
                buffer,
            ) ==> binding_writes(bindings, data).contains(
                ScheduledWrite { buffer, offset: 0, data },
            )),
    decreases bindings.len(),
{
    let writes = binding_writes(bindings, data);
    if bindings.len() > 0 {
        let earlier = bindings.drop_last();
        let before = binding_writes(earlier, data);
        lemma_binding_writes(earlier, data);
        assert forall|n: int| 0 <= n < writes.len() implies {
            let write = #[trigger] writes[n];
            &&& write.offset == 0
            &&& write.data == data
            &&& exists|j: int|
                0 <= j < bindings.len() && #[trigger] bindings[j] == BindingResource::Buffer(
                    write.buffer,
                )
        } by {
            let write = writes[n];
            if n < before.len() {
                assert(write == before[n]);
                let j = choose|j: int|
                    0 <= j < earlier.len() && #[trigger] earlier[j] == BindingResource::Buffer(
                        write.buffer,
                    );
                assert(bindings[j] == BindingResource::Buffer(write.buffer));
            } else {
                assert(bindings[bindings.len() - 1] == BindingResource::Buffer(write.buffer));
            }
        }
        assert forall|j: int| 0 <= j < bindings.len() implies (
        #[trigger] bindings[j] matches BindingResource::Buffer(buffer) ==> writes.contains(
            ScheduledWrite { buffer, offset: 0, data },
        )) by {
            if let BindingResource::Buffer(buffer) = bindings[j] {
                let wanted = ScheduledWrite { buffer, offset: 0, data };
                if j < earlier.len() {
                    assert(earlier[j] == BindingResource::Buffer(buffer));
                    assert(before.contains(wanted));
                    let n = choose|n: int| 0 <= n < before.len() && before[n] == wanted;
                    assert(writes[n] == wanted);
                } else {
                    assert(writes[writes.len() - 1] == wanted);
                }
            }
        }
    }
}

/// Every write of a frame serves some binding of some mirror: nothing is
/// written that no mirror with a camera frame and a resolved material calls
/// for.
pub proof fn lemma_frame_writes_sound(
    mirrors: Seq<MirrorEntity>,
    parameters: ParameterSnapshot,
    materials: Map<u64, Seq<BindingResource>>,
    n: int,
)
    requires
        0 <= n < frame_writes(mirrors, parameters, materials).len(),
    ensures
        exists|k: int, j: int|
            0 <= k < mirrors.len() && #[trigger] write_serves(
                frame_writes(mirrors, parameters, materials)[n],
                mirrors[k],
                j,
                parameters,
                materials,
            ),
    decreases mirrors.len(),
{
    let writes = frame_writes(mirrors, parameters, materials);
    let earlier = mirrors.drop_last();
    let before = frame_writes(earlier, parameters, materials);
    let mirror = mirrors.last();
    if n < before.len() {
        lemma_frame_writes_sound(earlier, parameters, materials, n);
        let (k, j) = choose|k: int, j: int|
            0 <= k < earlier.len() && #[trigger] write_serves(
                before[n],
                earlier[k],
                j,
                parameters,
                materials,
            );
        assert(write_serves(writes[n], mirrors[k], j, parameters, materials));
    } else {
        let own = mirror_writes(mirror, parameters, materials);
        let data = mirror_block(mirror.transform.unwrap(), parameters).spec_encode();
        lemma_binding_writes(materials[mirror.material], data);
        let write = own[n - before.len()];
        assert(write == writes[n]);
        let j = choose|j: int|
            0 <= j < materials[mirror.material].len()
                && #[trigger] materials[mirror.material][j] == BindingResource::Buffer(
                write.buffer,
            );
        assert(write_serves(writes[n], mirrors[mirrors.len() - 1], j, parameters, materials));
    }
}

/// Every buffer-backed binding of every mirror that has a camera frame and a
/// resolved material gets its write: after the frame's writes the buffer
/// holds the block of that mirror's camera frame and the frame's parameters.
pub proof fn lemma_frame_writes_complete(
    mirrors: Seq<MirrorEntity>,
    parameters: ParameterSnapshot,
    materials: Map<u64, Seq<BindingResource>>,
    k: int,
    j: int,
    buffer: u64,
)
    requires
        0 <= k < mirrors.len(),
        mirrors[k].transform.is_some(),
        materials.contains_key(mirrors[k].material),
        0 <= j < materials[mirrors[k].material].len(),
        materials[mirrors[k].material][j] == BindingResource::Buffer(buffer),
    ensures
        frame_writes(mirrors, parameters, materials).contains(
            ScheduledWrite {
                buffer,
                offset: 0,
                data: mirror_block(mirrors[k].transform.unwrap(), parameters).spec_encode(),
            },
        ),
    decreases mirrors.len(),
{
    let writes = frame_writes(mirrors, parameters, materials);
    let earlier = mirrors.drop_last();
    let before = frame_writes(earlier, parameters, materials);
    let data = mirror_block(mirrors[k].transform.unwrap(), parameters).spec_encode();
    let wanted = ScheduledWrite { buffer, offset: 0, data };
    if k < earlier.len() {
        assert(earlier[k] == mirrors[k]);
        lemma_frame_writes_complete(earlier, parameters, materials, k, j, buffer);
        let n = choose|n: int| 0 <= n < before.len() && before[n] == wanted;
        assert(writes[n] == wanted);
    } else {
        let own = mirror_writes(mirrors.last(), parameters, materials);
        lemma_binding_writes(materials[mirrors[k].material], data);
        let n = choose|n: int| 0 <= n < own.len() && own[n] == wanted;
        assert(writes[before.len() + n] == wanted);
    }
}

/// A frame in which no mirror has both a camera frame and a resolved
/// material writes nothing.
pub proof fn lemma_no_writes(
    mirrors: Seq<MirrorEntity>,
    parameters: ParameterSnapshot,
    materials: Map<u64, Seq<BindingResource>>,
)
    requires
        forall|k: int|
            0 <= k < mirrors.len() ==> (#[trigger] mirrors[k]).transform.is_none()
                || !materials.contains_key(mirrors[k].material),
    ensures
        frame_writes(mirrors, parameters, materials).len() == 0,
    decreases mirrors.len(),
{
    if mirrors.len() > 0 {
        let earlier = mirrors.drop_last();
        assert forall|k: int| 0 <= k < earlier.len() implies (
        #[trigger] earlier[k]).transform.is_none() || !materials.contains_key(
            earlier[k].material,
        ) by {
            assert(earlier[k] == mirrors[k]);
        }
        lemma_no_writes(earlier, parameters, materials);
        assert(mirrors[mirrors.len() - 1] == mirrors.last());
    }
}

} // verus!
