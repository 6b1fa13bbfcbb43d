//! Compute pipelines: positional binding, lazy bind-group rebuild, dispatch.
//!
//! A builder collects bound resources in order — the Nth bind call occupies
//! binding slot N — and registers the finished pipeline with a clean dirty
//! flag. Before any dispatch the pipeline checks its flag; if some bound
//! resource was replaced since the bind group was built, the group is rebuilt
//! from the current table and the flag cleared, so no dispatch ever runs
//! against a stale bind group.

use vstd::prelude::*;

use crate::dispatch::Command;
use crate::gpu::{id_in_range, Gpu};
use crate::ids::PipelineId;
use crate::manager::{
    copy_ids, pipeline_cleaned, pipeline_registered, BindGroup, PipelineStatus,
};
use crate::resource::{Bindable, BindableResourceId, BindGroupLayoutEntry, ShaderVisibility};

verus! {

/// A compute pipeline, its bound ids in slot order, and the bind group built
/// over them.
pub struct ComputePipeline {
    pub id: PipelineId,
    pub pipeline: u64,
    pub entries: Vec<BindableResourceId>,
    pub bind_group: BindGroup,
}

/// Collects the resources to bind, in slot order, before the pipeline is
/// built.
pub struct ComputePipelineBuilder {
    pub module: u64,
    pub bind_group_layout: Vec<BindGroupLayoutEntry>,
    pub entries: Vec<BindableResourceId>,
}

impl ComputePipelineBuilder {
    /// One layout slot per bound id, in the same positional order.
    pub open spec fn wf(&self) -> bool {
        &&& self.bind_group_layout@.len() == self.entries@.len()
        &&& forall|i: int|
            0 <= i < self.bind_group_layout@.len()
                ==> (#[trigger] self.bind_group_layout@[i]).binding == i
    }

    /// Adds `entry` as the next binding: the Nth call binds slot N, with no
    /// reordering or gap-filling.
    pub fn bind<B: Bindable>(self, entry: &B) -> (r: ComputePipelineBuilder)
        requires
            self.wf(),
            self.entries@.len() < u32::MAX,
        ensures
            r.wf(),
            r.module == self.module,
            r.entries@ == self.entries@.push(entry.id_spec()),
            r.bind_group_layout@ == self.bind_group_layout@.push(
                BindGroupLayoutEntry {
                    binding: self.entries@.len() as u32,
                    visibility: ShaderVisibility::Compute,
                    ty: entry.binding_type_spec(),
                    count: entry.count_spec(),
                },
            ),
    {
        let mut builder = self;
        let binding = builder.bind_group_layout.len() as u32;
        builder.entries.push(entry.resource_id());
        builder.bind_group_layout.push(
            BindGroupLayoutEntry {
                binding,
                visibility: ShaderVisibility::Compute,
                ty: entry.binding_type(),
                count: entry.count(),
            },
        );
        builder
    }

    /// Builds the pipeline: registers it with a clean dirty flag and builds
    /// its bind group positionally from the current table.
    pub fn finish(self, gpu: &mut Gpu) -> (r: ComputePipeline)
        requires
            old(gpu).wf(),
            self.wf(),
            old(gpu).binding_manager.all_resolvable(self.entries@),
            self.entries@.len() <= u32::MAX,
            old(gpu).alloc.pipelines.next < u64::MAX,
            old(gpu).device_handles.next < u64::MAX,
        ensures
            final(gpu).wf(),
            r.id.0 == old(gpu).alloc.pipelines.next,
            r.pipeline == old(gpu).device_handles.next,
            r.entries@ == self.entries@,
            pipeline_registered(
                old(gpu).binding_manager.pipelines_map(),
                final(gpu).binding_manager.pipelines_map(),
                r.id,
                self.entries@,
            ),
            final(gpu).binding_manager.resources == old(gpu).binding_manager.resources,
            final(gpu).binding_manager.collections == old(gpu).binding_manager.collections,
            final(gpu).alloc.pipelines.next == old(gpu).alloc.pipelines.next + 1,
            final(gpu).alloc.buffers == old(gpu).alloc.buffers,
            final(gpu).alloc.textures == old(gpu).alloc.textures,
            final(gpu).alloc.samplers == old(gpu).alloc.samplers,
            final(gpu).alloc.acceleration_structures == old(gpu).alloc.acceleration_structures,
            final(gpu).alloc.collections == old(gpu).alloc.collections,
            final(gpu).device_handles.next == old(gpu).device_handles.next + 1,
            final(gpu).dispatch_queue == old(gpu).dispatch_queue,
            final(gpu).features == old(gpu).features,
            final(gpu).default_buffers == old(gpu).default_buffers,
            final(gpu).binding_manager.bind_group_matches(r.entries@, r.bind_group),
            r.synced(*final(gpu)),
    {
        let bind_group = gpu.binding_manager.create_bind_group(&self.entries);
        let pipeline = gpu.device_handles.fresh();
        let id = gpu.alloc.next_pipeline();
        proof {
            if gpu.binding_manager.pipelines_map().contains_key(id) {
                assert(id.0 < old(gpu).alloc.pipelines.next);
            }
        }
        let status = PipelineStatus { resources: copy_ids(&self.entries), dirty: false };
        gpu.binding_manager.add_pipeline(id, status);
        proof {
            assert(gpu.binding_manager.pipelines_map().dom() =~= old(
                gpu,
            ).binding_manager.pipelines_map().dom().insert(id));
            assert forall|p: PipelineId|
                #[trigger] gpu.binding_manager.pipelines_map().contains_key(p) implies p.0
                < gpu.alloc.pipelines.next by {
                if p != id {
                    assert(old(gpu).binding_manager.pipelines_map().contains_key(p));
                }
            }
            assert forall|rid: BindableResourceId|
                #[trigger] gpu.binding_manager.resources_map().contains_key(rid) implies
                id_in_range(gpu.alloc, rid) && gpu.binding_manager.resources_map()[rid].handle()
                < gpu.device_handles.next by {
                assert(old(gpu).binding_manager.resources_map().contains_key(rid));
            }
            assert forall|c: crate::ids::TextureCollectionId|
                #[trigger] gpu.binding_manager.collections_map().contains_key(c) implies c.0
                < gpu.alloc.collections.next by {
                assert(old(gpu).binding_manager.collections_map().contains_key(c));
            }
        }
        ComputePipeline { id, pipeline, entries: self.entries, bind_group }
    }
}

impl ComputePipeline {
    /// The wrapper agrees with the registry, and a clean dirty flag really
    /// does mean the bind group reflects the current table.
    pub open spec fn synced(&self, gpu: Gpu) -> bool {
        &&& gpu.binding_manager.pipelines_map().contains_key(self.id)
        &&& gpu.binding_manager.pipelines_map()[self.id].resources@ == self.entries@
        &&& (!gpu.binding_manager.pipelines_map()[self.id].dirty
            && gpu.binding_manager.all_resolvable(self.entries@))
            ==> gpu.binding_manager.bind_group_matches(self.entries@, self.bind_group)
    }

    /// Rebuilds the bind group from the current table if the pipeline was
    /// marked dirty, clearing the flag; afterwards the bind group reflects
    /// the current table either way.
    fn recreate_bind_group(&mut self, gpu: &mut Gpu)
        requires
            old(gpu).wf(),
            old(self).synced(*old(gpu)),
            old(gpu).binding_manager.all_resolvable(old(self).entries@),
            old(self).entries@.len() <= u32::MAX,
        ensures
            final(gpu).wf(),
            final(self).id == old(self).id,
            final(self).pipeline == old(self).pipeline,
            final(self).entries@ == old(self).entries@,
            pipeline_cleaned(
                old(gpu).binding_manager.pipelines_map(),
                final(gpu).binding_manager.pipelines_map(),
                old(self).id,
            ),
            final(gpu).binding_manager.resources == old(gpu).binding_manager.resources,
            final(gpu).binding_manager.collections == old(gpu).binding_manager.collections,
            final(gpu).alloc == old(gpu).alloc,
            final(gpu).device_handles == old(gpu).device_handles,
            final(gpu).dispatch_queue == old(gpu).dispatch_queue,
            final(gpu).features == old(gpu).features,
            final(gpu).default_buffers == old(gpu).default_buffers,
            final(gpu).binding_manager.bind_group_matches(
                final(self).entries@,
                final(self).bind_group,
            ),
            final(self).synced(*final(gpu)),
    {
        let dirty = gpu.binding_manager.get_pipeline(&self.id).unwrap().dirty;
        if dirty {
            self.bind_group = gpu.binding_manager.create_bind_group(&self.entries);
            let status = PipelineStatus { resources: copy_ids(&self.entries), dirty: false };
            gpu.binding_manager.add_pipeline(self.id, status);
            proof {
                assert(gpu.binding_manager.pipelines_map().dom() =~= old(
                    gpu,
                ).binding_manager.pipelines_map().dom());
                assert forall|p: PipelineId|
                    #[trigger] gpu.binding_manager.pipelines_map().contains_key(p) implies p.0
                    < gpu.alloc.pipelines.next by {
                    assert(old(gpu).binding_manager.pipelines_map().contains_key(p));
                }
                assert forall|rid: BindableResourceId|
                    #[trigger] gpu.binding_manager.resources_map().contains_key(rid) implies
                    id_in_range(gpu.alloc, rid) && gpu.binding_manager.resources_map()[
                    rid].handle() < gpu.device_handles.next by {
                    assert(old(gpu).binding_manager.resources_map().contains_key(rid));
                }
                assert forall|c: crate::ids::TextureCollectionId|
                    #[trigger] gpu.binding_manager.collections_map().contains_key(c) implies c.0
                    < gpu.alloc.collections.next by {
                    assert(old(gpu).binding_manager.collections_map().contains_key(c));
                }
            }
        }
    }

    fn dispatch_inner(&mut self, gpu: &mut Gpu, x: u32, y: u32, z: u32, immediate: bool)
        requires
            old(gpu).wf(),
            old(self).synced(*old(gpu)),
            old(gpu).binding_manager.all_resolvable(old(self).entries@),
            old(self).entries@.len() <= u32::MAX,
        ensures
            final(gpu).wf(),
            final(self).id == old(self).id,
            final(self).pipeline == old(self).pipeline,
            final(self).entries@ == old(self).entries@,
            pipeline_cleaned(
                old(gpu).binding_manager.pipelines_map(),
                final(gpu).binding_manager.pipelines_map(),
                old(self).id,
            ),
            final(gpu).binding_manager.resources == old(gpu).binding_manager.resources,
            final(gpu).binding_manager.collections == old(gpu).binding_manager.collections,
            final(gpu).alloc == old(gpu).alloc,
            final(gpu).device_handles == old(gpu).device_handles,
            final(gpu).features == old(gpu).features,
            final(gpu).default_buffers == old(gpu).default_buffers,
            final(gpu).binding_manager.bind_group_matches(
                final(self).entries@,
                final(self).bind_group,
            ),
            final(self).synced(*final(gpu)),
            final(gpu).dispatch_queue.submitted@ == if immediate {
                old(gpu).dispatch_queue.submitted@ + old(gpu).dispatch_queue.pending@.push(
                    Command::ComputeDispatch { pipeline: old(self).id, x, y, z },
                )
            } else {
                old(gpu).dispatch_queue.submitted@
            },
            final(gpu).dispatch_queue.pending@ == if immediate {
                Seq::<Command>::empty()
            } else {
                old(gpu).dispatch_queue.pending@.push(
                    Command::ComputeDispatch { pipeline: old(self).id, x, y, z },
                )
            },
    {
        self.recreate_bind_group(gpu);
        gpu.dispatch(Command::ComputeDispatch { pipeline: self.id, x, y, z }, immediate);
    }

    /// Runs the pipeline on the given workgroup counts, submitting at once;
    /// the bind group is brought up to date first.
    pub fn dispatch(&mut self, gpu: &mut Gpu, x: u32, y: u32, z: u32)
        requires
            old(gpu).wf(),
            old(self).synced(*old(gpu)),
            old(gpu).binding_manager.all_resolvable(old(self).entries@),
            old(self).entries@.len() <= u32::MAX,
        ensures
            final(gpu).wf(),
            final(self).id == old(self).id,
            final(self).pipeline == old(self).pipeline,
            final(self).entries@ == old(self).entries@,
            pipeline_cleaned(
                old(gpu).binding_manager.pipelines_map(),
                final(gpu).binding_manager.pipelines_map(),
                old(self).id,
            ),
            final(gpu).binding_manager.resources == old(gpu).binding_manager.resources,
            final(gpu).binding_manager.collections == old(gpu).binding_manager.collections,
            final(gpu).alloc == old(gpu).alloc,
            final(gpu).device_handles == old(gpu).device_handles,
            final(gpu).features == old(gpu).features,
            final(gpu).default_buffers == old(gpu).default_buffers,
            final(gpu).binding_manager.bind_group_matches(
                final(self).entries@,
                final(self).bind_group,
            ),
            final(self).synced(*final(gpu)),
            final(gpu).dispatch_queue.submitted@ == old(gpu).dispatch_queue.submitted@ + old(
                gpu,
            ).dispatch_queue.pending@.push(
                Command::ComputeDispatch { pipeline: old(self).id, x, y, z },
            ),
            final(gpu).dispatch_queue.pending@.len() == 0,
    {
        self.dispatch_inner(gpu, x, y, z, true);
    }

    /// Queues the dispatch for the next flush instead of submitting at once;
    /// the bind group is still brought up to date now.
    pub fn queue_dispatch(&mut self, gpu: &mut Gpu, x: u32, y: u32, z: u32)
        requires
            old(gpu).wf(),
            old(self).synced(*old(gpu)),
            old(gpu).binding_manager.all_resolvable(old(self).entries@),
            old(self).entries@.len() <= u32::MAX,
        ensures
            final(gpu).wf(),
            final(self).id == old(self).id,
            final(self).pipeline == old(self).pipeline,
            final(self).entries@ == old(self).entries@,
            pipeline_cleaned(
                old(gpu).binding_manager.pipelines_map(),
                final(gpu).binding_manager.pipelines_map(),
                old(self).id,
            ),
            final(gpu).binding_manager.resources == old(gpu).binding_manager.resources,
            final(gpu).binding_manager.collections == old(gpu).binding_manager.collections,
            final(gpu).alloc == old(gpu).alloc,
            final(gpu).device_handles == old(gpu).device_handles,
            final(gpu).features == old(gpu).features,
            final(gpu).default_buffers == old(gpu).default_buffers,
            final(gpu).binding_manager.bind_group_matches(
                final(self).entries@,
                final(self).bind_group,
            ),
            final(self).synced(*final(gpu)),
            final(gpu).dispatch_queue.submitted@ == old(gpu).dispatch_queue.submitted@,
            final(gpu).dispatch_queue.pending@ == old(gpu).dispatch_queue.pending@.push(
                Command::ComputeDispatch { pipeline: old(self).id, x, y, z },
            ),
    {
        self.dispatch_inner(gpu, x, y, z, false);
    }

    /// As [`Self::dispatch`], registering a completion callback token with
    /// the submitted batch.
    pub fn dispatch_callback(&mut self, gpu: &mut Gpu, x: u32, y: u32, z: u32, callback: u64)
        requires
            old(gpu).wf(),
            old(self).synced(*old(gpu)),
            old(gpu).binding_manager.all_resolvable(old(self).entries@),
            old(self).entries@.len() <= u32::MAX,
        ensures
            final(gpu).wf(),
            final(self).id == old(self).id,
            final(self).entries@ == old(self).entries@,
            pipeline_cleaned(
                old(gpu).binding_manager.pipelines_map(),
                final(gpu).binding_manager.pipelines_map(),
                old(self).id,
            ),
            final(gpu).binding_manager.resources == old(gpu).binding_manager.resources,
            final(gpu).binding_manager.collections == old(gpu).binding_manager.collections,
            final(gpu).binding_manager.bind_group_matches(
                final(self).entries@,
                final(self).bind_group,
            ),
            final(self).synced(*final(gpu)),
            final(gpu).dispatch_queue.submitted@ == old(gpu).dispatch_queue.submitted@ + old(
                gpu,
            ).dispatch_queue.pending@.push(
                Command::ComputeDispatch { pipeline: old(self).id, x, y, z },
            ),
            final(gpu).dispatch_queue.pending@.len() == 0,
            final(gpu).dispatch_queue.submitted_callbacks@ == old(
                gpu,
            ).dispatch_queue.submitted_callbacks@ + old(
                gpu,
            ).dispatch_queue.pending_callbacks@.push(callback),
    {
        self.recreate_bind_group(gpu);
        gpu.dispatch_callback(Command::ComputeDispatch { pipeline: self.id, x, y, z }, callback, true);
    }

    /// As [`Self::queue_dispatch`], registering a completion callback token
    /// for the batch that will carry the dispatch.
    pub fn queue_dispatch_callback(&mut self, gpu: &mut Gpu, x: u32, y: u32, z: u32, callback: u64)
        requires
            old(gpu).wf(),
            old(self).synced(*old(gpu)),
            old(gpu).binding_manager.all_resolvable(old(self).entries@),
            old(self).entries@.len() <= u32::MAX,
        ensures
            final(gpu).wf(),
            final(self).id == old(self).id,
            final(self).entries@ == old(self).entries@,
            pipeline_cleaned(
                old(gpu).binding_manager.pipelines_map(),
                final(gpu).binding_manager.pipelines_map(),
                old(self).id,
            ),
            final(gpu).binding_manager.resources == old(gpu).binding_manager.resources,
            final(gpu).binding_manager.collections == old(gpu).binding_manager.collections,
            final(gpu).binding_manager.bind_group_matches(
                final(self).entries@,
                final(self).bind_group,
            ),
            final(self).synced(*final(gpu)),
            final(gpu).dispatch_queue.submitted@ == old(gpu).dispatch_queue.submitted@,
            final(gpu).dispatch_queue.pending@ == old(gpu).dispatch_queue.pending@.push(
                Command::ComputeDispatch { pipeline: old(self).id, x, y, z },
            ),
            final(gpu).dispatch_queue.pending_callbacks@ == old(
                gpu,
            ).dispatch_queue.pending_callbacks@.push(callback),
    {
        self.recreate_bind_group(gpu);
        gpu.dispatch_callback(
            Command::ComputeDispatch { pipeline: self.id, x, y, z },
            callback,
            false,
        );
    }

    /// Removes the pipeline's registry entry.
    pub fn destroy(self, gpu: &mut Gpu)
        requires
            old(gpu).wf(),
        ensures
            final(gpu).wf(),
            final(gpu).binding_manager.pipelines_map() == old(
                gpu,
            ).binding_manager.pipelines_map().remove(self.id),
            final(gpu).binding_manager.resources == old(gpu).binding_manager.resources,
            final(gpu).binding_manager.collections == old(gpu).binding_manager.collections,
            final(gpu).alloc == old(gpu).alloc,
            final(gpu).device_handles == old(gpu).device_handles,
            final(gpu).dispatch_queue == old(gpu).dispatch_queue,
    {
        gpu.binding_manager.remove_pipeline(&self.id);
        proof {
            assert forall|p: PipelineId|
                #[trigger] gpu.binding_manager.pipelines_map().contains_key(p) implies p.0
                < gpu.alloc.pipelines.next by {
                assert(old(gpu).binding_manager.pipelines_map().contains_key(p));
            }
            assert forall|rid: BindableResourceId|
                #[trigger] gpu.binding_manager.resources_map().contains_key(rid) implies
                id_in_range(gpu.alloc, rid) && gpu.binding_manager.resources_map()[rid].handle()
                < gpu.device_handles.next by {
                assert(old(gpu).binding_manager.resources_map().contains_key(rid));
            }
            assert forall|c: crate::ids::TextureCollectionId|
                #[trigger] gpu.binding_manager.collections_map().contains_key(c) implies c.0
                < gpu.alloc.collections.next by {
                assert(old(gpu).binding_manager.collections_map().contains_key(c));
            }
        }
    }
}

impl Gpu {
    /// Starts a compute pipeline builder; the shader module is an opaque
    /// compiled object the driver creates, named here by a fresh handle.
    pub fn compute_pipeline(&mut self) -> (r: ComputePipelineBuilder)
        requires
            old(self).wf(),
            old(self).device_handles.next < u64::MAX,
        ensures
            final(self).wf(),
            r.wf(),
            r.module == old(self).device_handles.next,
            r.entries@.len() == 0,
            r.bind_group_layout@.len() == 0,
            final(self).device_handles.next == old(self).device_handles.next + 1,
            final(self).alloc == old(self).alloc,
            final(self).binding_manager == old(self).binding_manager,
            final(self).dispatch_queue == old(self).dispatch_queue,
            final(self).features == old(self).features,
            final(self).default_buffers == old(self).default_buffers,
    {
        let module = self.device_handles.fresh();
        proof {
            assert forall|rid: BindableResourceId|
                #[trigger] self.binding_manager.resources_map().contains_key(rid) implies
                id_in_range(self.alloc, rid) && self.binding_manager.resources_map()[rid].handle()
                < self.device_handles.next by {
                assert(old(self).binding_manager.resources_map().contains_key(rid));
            }
            assert forall|c: crate::ids::TextureCollectionId|
                #[trigger] self.binding_manager.collections_map().contains_key(c) implies c.0
                < self.alloc.collections.next by {
                assert(old(self).binding_manager.collections_map().contains_key(c));
            }
            assert forall|p: PipelineId|
                #[trigger] self.binding_manager.pipelines_map().contains_key(p) implies p.0
                < self.alloc.pipelines.next by {
                assert(old(self).binding_manager.pipelines_map().contains_key(p));
            }
        }
        ComputePipelineBuilder { module, bind_group_layout: Vec::new(), entries: Vec::new() }
    }
}

} // verus!
