//! The shared context every resource and pipeline works against.
//!
//! `Gpu` owns the id allocator, the binding manager and the dispatch queue,
//! and stands in for the device with a counter of allocation handles: every
//! buffer, view, sampler, shader or pipeline object the driver creates is
//! named by one fresh handle drawn here. Adapter selection and device
//! acquisition are the driver's business; the builder records the requested
//! capabilities so that operations needing them can insist they were enabled.

use vstd::prelude::*;

use crate::dispatch::{Command, DispatchQueue};
use crate::ids::{IdAllocator, IdCounter};
use crate::manager::BindingManager;
use crate::resource::BindableResourceId;

verus! {

/// The device capabilities requested when the context was built.
#[derive(Clone, Copy, PartialEq, Eq, Debug, Structural)]
pub struct Features {
    pub vertex_writable_storage: bool,
    pub raytracing: bool,
}

/// Which adapter the driver should prefer; recorded for it, not interpreted
/// here.
#[derive(Clone, Copy, PartialEq, Eq, Debug, Structural)]
pub enum PowerPreference {
    NoPreference,
    LowPower,
    HighPerformance,
}

/// Ids of the quad vertex and index buffers that quad draws fall back to.
#[derive(Clone, Copy, PartialEq, Eq, Debug, Structural)]
pub struct DefaultBuffers {
    pub vertex: crate::ids::BufferId,
    pub index: crate::ids::BufferId,
}

/// The shared context: id allocator, binding manager, dispatch queue, and the
/// source of device allocation handles.
pub struct Gpu {
    pub alloc: IdAllocator,
    pub binding_manager: BindingManager,
    pub dispatch_queue: DispatchQueue,
    pub device_handles: IdCounter,
    pub features: Features,
    pub default_buffers: Option<DefaultBuffers>,
}

/// Whether `id` lies below the counter of its kind: everything the tables
/// hold was issued by the allocator.
pub open spec fn id_in_range(alloc: IdAllocator, id: BindableResourceId) -> bool {
    match id {
        BindableResourceId::Buffer(b) => b.0 < alloc.buffers.next,
        BindableResourceId::Texture(t) => t.0 < alloc.textures.next,
        BindableResourceId::Sampler(s) => s.0 < alloc.samplers.next,
        BindableResourceId::AccelerationStructure(a) => a.0 < alloc.acceleration_structures.next,
        BindableResourceId::TextureCollection(c) => c.0 < alloc.collections.next,
    }
}

impl Gpu {
    /// Everything the tables hold was issued by the allocator, and every
    /// handle held in the table was drawn from the handle counter — so a
    /// freshly drawn id or handle collides with nothing live.
    pub open spec fn wf(&self) -> bool {
        &&& self.alloc.wf()
        &&& self.binding_manager.wf()
        &&& self.device_handles.wf()
        &&& forall|id: BindableResourceId|
            #[trigger] self.binding_manager.resources_map().contains_key(id) ==> id_in_range(
                self.alloc,
                id,
            ) && self.binding_manager.resources_map()[id].handle() < self.device_handles.next
        &&& forall|p: crate::ids::PipelineId|
            #[trigger] self.binding_manager.pipelines_map().contains_key(p) ==> p.0
                < self.alloc.pipelines.next
        &&& forall|c: crate::ids::TextureCollectionId|
            #[trigger] self.binding_manager.collections_map().contains_key(c) ==> c.0
                < self.alloc.collections.next
    }

    /// A fresh, empty context with the given capabilities.
    pub fn with_capabilities(features: Features) -> (r: Gpu)
        ensures
            r.wf(),
            r.alloc.ids_available(),
            r.alloc.buffers.next == 0,
            r.alloc.textures.next == 0,
            r.alloc.samplers.next == 0,
            r.alloc.pipelines.next == 0,
            r.alloc.acceleration_structures.next == 0,
            r.alloc.collections.next == 0,
            r.device_handles.next == 0,
            r.binding_manager.resources_map() == Map::<
                BindableResourceId,
                crate::resource::BindableResource,
            >::empty(),
            r.binding_manager.pipelines_map() == Map::<
                crate::ids::PipelineId,
                crate::manager::PipelineStatus,
            >::empty(),
            r.binding_manager.collections_map() == Map::<
                crate::ids::TextureCollectionId,
                Vec<crate::ids::TextureId>,
            >::empty(),
            r.dispatch_queue.pending@.len() == 0,
            r.dispatch_queue.pending_callbacks@.len() == 0,
            r.dispatch_queue.submitted@.len() == 0,
            r.dispatch_queue.submitted_callbacks@.len() == 0,
            r.features == features,
            r.default_buffers is None,
    {
        Gpu {
            alloc: IdAllocator::new(),
            binding_manager: BindingManager::new(),
            dispatch_queue: DispatchQueue::new(),
            device_handles: IdCounter::new(),
            features,
            default_buffers: None,
        }
    }

    pub fn builder() -> (r: GpuBuilder)
        ensures
            r.features == (Features { vertex_writable_storage: true, raytracing: false }),
            r.power_preference == PowerPreference::NoPreference,
    {
        GpuBuilder {
            features: Features { vertex_writable_storage: true, raytracing: false },
            power_preference: PowerPreference::NoPreference,
        }
    }

    /// A fresh context with the default capabilities.
    pub fn new() -> (r: Gpu)
        ensures
            r.wf(),
            r.alloc.ids_available(),
            r.alloc.buffers.next == 0,
            r.alloc.textures.next == 0,
            r.alloc.samplers.next == 0,
            r.alloc.pipelines.next == 0,
            r.alloc.acceleration_structures.next == 0,
            r.alloc.collections.next == 0,
            r.device_handles.next == 0,
            r.binding_manager.resources_map() == Map::<
                BindableResourceId,
                crate::resource::BindableResource,
            >::empty(),
            r.binding_manager.pipelines_map() == Map::<
                crate::ids::PipelineId,
                crate::manager::PipelineStatus,
            >::empty(),
            r.binding_manager.collections_map() == Map::<
                crate::ids::TextureCollectionId,
                Vec<crate::ids::TextureId>,
            >::empty(),
            r.dispatch_queue.pending@.len() == 0,
            r.dispatch_queue.pending_callbacks@.len() == 0,
            r.dispatch_queue.submitted@.len() == 0,
            r.dispatch_queue.submitted_callbacks@.len() == 0,
            r.features == (Features { vertex_writable_storage: true, raytracing: false }),
            r.default_buffers is None,
    {
        Gpu::builder().build()
    }

    /// Submits everything pending as one batch and registers the batch's
    /// callbacks behind it.
    pub fn flush_dispatch_queue(&mut self)
        ensures
            final(self).dispatch_queue.pending@.len() == 0,
            final(self).dispatch_queue.pending_callbacks@.len() == 0,
            final(self).dispatch_queue.submitted@ == old(self).dispatch_queue.submitted@ + old(
                self,
            ).dispatch_queue.pending@,
            final(self).dispatch_queue.submitted_callbacks@ == old(
                self,
            ).dispatch_queue.submitted_callbacks@ + old(self).dispatch_queue.pending_callbacks@,
            final(self).alloc == old(self).alloc,
            final(self).binding_manager == old(self).binding_manager,
            final(self).device_handles == old(self).device_handles,
            final(self).features == old(self).features,
            final(self).default_buffers == old(self).default_buffers,
    {
        self.dispatch_queue.flush();
    }

    /// Records a command; queued when `immediate` is false, otherwise the
    /// whole pending batch, this command last, is flushed at once.
    pub fn dispatch(&mut self, command: Command, immediate: bool)
        ensures
            final(self).dispatch_queue.submitted@ == if immediate {
                old(self).dispatch_queue.submitted@ + old(self).dispatch_queue.pending@.push(
                    command,
                )
            } else {
                old(self).dispatch_queue.submitted@
            },
            final(self).dispatch_queue.pending@ == if immediate {
                Seq::<Command>::empty()
            } else {
                old(self).dispatch_queue.pending@.push(command)
            },
            final(self).dispatch_queue.pending_callbacks@ == if immediate {
                Seq::<u64>::empty()
            } else {
                old(self).dispatch_queue.pending_callbacks@
            },
            final(self).dispatch_queue.submitted_callbacks@ == if immediate {
                old(self).dispatch_queue.submitted_callbacks@ + old(
                    self,
                ).dispatch_queue.pending_callbacks@
            } else {
                old(self).dispatch_queue.submitted_callbacks@
            },
            final(self).alloc == old(self).alloc,
            final(self).binding_manager == old(self).binding_manager,
            final(self).device_handles == old(self).device_handles,
            final(self).features == old(self).features,
            final(self).default_buffers == old(self).default_buffers,
    {
        self.dispatch_queue.queue(command);
        if immediate {
            self.dispatch_queue.flush();
        }
    }

    /// As [`Self::dispatch`], also recording a completion callback token for
    /// the batch that will carry the command.
    pub fn dispatch_callback(&mut self, command: Command, callback: u64, immediate: bool)
        ensures
            final(self).dispatch_queue.submitted@ == if immediate {
                old(self).dispatch_queue.submitted@ + old(self).dispatch_queue.pending@.push(
                    command,
                )
            } else {
                old(self).dispatch_queue.submitted@
            },
            final(self).dispatch_queue.pending@ == if immediate {
                Seq::<Command>::empty()
            } else {
                old(self).dispatch_queue.pending@.push(command)
            },
            final(self).dispatch_queue.pending_callbacks@ == if immediate {
                Seq::<u64>::empty()
            } else {
                old(self).dispatch_queue.pending_callbacks@.push(callback)
            },
            final(self).dispatch_queue.submitted_callbacks@ == if immediate {
                old(self).dispatch_queue.submitted_callbacks@ + old(
                    self,
                ).dispatch_queue.pending_callbacks@.push(callback)
            } else {
                old(self).dispatch_queue.submitted_callbacks@
            },
            final(self).alloc == old(self).alloc,
            final(self).binding_manager == old(self).binding_manager,
            final(self).device_handles == old(self).device_handles,
            final(self).features == old(self).features,
            final(self).default_buffers == old(self).default_buffers,
    {
        self.dispatch_queue.queue_with_callback(command, callback);
        if immediate {
            self.dispatch_queue.flush();
        }
    }
}

/// Well-formedness survives adding or replacing one table entry, as long as
/// the new entry's id and handle are in range and no counter moved backwards.
pub proof fn lemma_wf_after_resource_insert(
    pre: Gpu,
    post: Gpu,
    rid: BindableResourceId,
    r: crate::resource::BindableResource,
)
    requires
        pre.wf(),
        post.alloc.wf(),
        post.binding_manager.wf(),
        post.device_handles.wf(),
        post.binding_manager.resources_map() == pre.binding_manager.resources_map().insert(rid, r),
        post.binding_manager.pipelines_map().dom() == pre.binding_manager.pipelines_map().dom(),
        post.binding_manager.collections_map().dom() == pre.binding_manager.collections_map().dom(),
        id_in_range(post.alloc, rid),
        r.handle() < post.device_handles.next,
        pre.alloc.buffers.next <= post.alloc.buffers.next,
        pre.alloc.textures.next <= post.alloc.textures.next,
        pre.alloc.samplers.next <= post.alloc.samplers.next,
        pre.alloc.pipelines.next <= post.alloc.pipelines.next,
        pre.alloc.acceleration_structures.next <= post.alloc.acceleration_structures.next,
        pre.alloc.collections.next <= post.alloc.collections.next,
        pre.device_handles.next <= post.device_handles.next,
    ensures
        post.wf(),
{
    assert forall|id: BindableResourceId|
        #[trigger] post.binding_manager.resources_map().contains_key(id) implies id_in_range(
        post.alloc,
        id,
    ) && post.binding_manager.resources_map()[id].handle() < post.device_handles.next by {
        if id != rid {
            assert(pre.binding_manager.resources_map().contains_key(id));
        }
    }
    assert forall|p: crate::ids::PipelineId|
        #[trigger] post.binding_manager.pipelines_map().contains_key(p) implies p.0
        < post.alloc.pipelines.next by {
        assert(pre.binding_manager.pipelines_map().dom().contains(p));
    }
    assert forall|c: crate::ids::TextureCollectionId|
        #[trigger] post.binding_manager.collections_map().contains_key(c) implies c.0
        < post.alloc.collections.next by {
        assert(pre.binding_manager.collections_map().dom().contains(c));
    }
}

/// Well-formedness survives removing one table entry.
pub proof fn lemma_wf_after_resource_remove(pre: Gpu, post: Gpu, rid: BindableResourceId)
    requires
        pre.wf(),
        post.binding_manager.wf(),
        post.alloc == pre.alloc,
        post.device_handles == pre.device_handles,
        post.binding_manager.resources_map() == pre.binding_manager.resources_map().remove(rid),
        post.binding_manager.pipelines_map() == pre.binding_manager.pipelines_map(),
        post.binding_manager.collections_map() == pre.binding_manager.collections_map(),
    ensures
        post.wf(),
{
    assert forall|id: BindableResourceId|
        #[trigger] post.binding_manager.resources_map().contains_key(id) implies id_in_range(
        post.alloc,
        id,
    ) && post.binding_manager.resources_map()[id].handle() < post.device_handles.next by {
        assert(pre.binding_manager.resources_map().contains_key(id));
    }
    assert forall|p: crate::ids::PipelineId|
        #[trigger] post.binding_manager.pipelines_map().contains_key(p) implies p.0
        < post.alloc.pipelines.next by {
        assert(pre.binding_manager.pipelines_map().contains_key(p));
    }
    assert forall|c: crate::ids::TextureCollectionId|
        #[trigger] post.binding_manager.collections_map().contains_key(c) implies c.0
        < post.alloc.collections.next by {
        assert(pre.binding_manager.collections_map().contains_key(c));
    }
}

/// Requests capabilities for the context; the driver hands them to the real
/// adapter request.
pub struct GpuBuilder {
    pub features: Features,
    pub power_preference: PowerPreference,
}

impl GpuBuilder {
    /// Requests the experimental ray-tracing capabilities.
    pub fn with_raytracing(self) -> (r: GpuBuilder)
        ensures
            r.features == (Features { raytracing: true, ..self.features }),
            r.power_preference == self.power_preference,
    {
        GpuBuilder {
            features: Features { raytracing: true, ..self.features },
            power_preference: self.power_preference,
        }
    }

    pub fn power_preference(self, power_preference: PowerPreference) -> (r: GpuBuilder)
        ensures
            r.features == self.features,
            r.power_preference == power_preference,
    {
        GpuBuilder { features: self.features, power_preference }
    }

    /// Builds the context with the requested capabilities.
    pub fn build(self) -> (r: Gpu)
        ensures
            r.wf(),
            r.alloc.ids_available(),
            r.alloc.buffers.next == 0,
            r.alloc.textures.next == 0,
            r.alloc.samplers.next == 0,
            r.alloc.pipelines.next == 0,
            r.alloc.acceleration_structures.next == 0,
            r.alloc.collections.next == 0,
            r.device_handles.next == 0,
            r.binding_manager.resources_map() == Map::<
                BindableResourceId,
                crate::resource::BindableResource,
            >::empty(),
            r.binding_manager.pipelines_map() == Map::<
                crate::ids::PipelineId,
                crate::manager::PipelineStatus,
            >::empty(),
            r.binding_manager.collections_map() == Map::<
                crate::ids::TextureCollectionId,
                Vec<crate::ids::TextureId>,
            >::empty(),
            r.dispatch_queue.pending@.len() == 0,
            r.dispatch_queue.pending_callbacks@.len() == 0,
            r.dispatch_queue.submitted@.len() == 0,
            r.dispatch_queue.submitted_callbacks@.len() == 0,
            r.features == self.features,
            r.default_buffers is None,
    {
        Gpu::with_capabilities(self.features)
    }
}

} // verus!
