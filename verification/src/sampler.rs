//! Texture samplers.

use vstd::prelude::*;

use crate::gpu::{id_in_range, Gpu};
use crate::ids::SamplerId;
use crate::resource::{
    Bindable, BindableResource, BindableResourceId, BindingType, FilterMode, SamplerState,
};

verus! {

/// A sampler bound through the table.
pub struct Sampler {
    pub id: SamplerId,
    pub sampler: u64,
}

/// Whether the table maps `id` to a sampler entry.
pub open spec fn has_sampler(gpu: Gpu, id: SamplerId) -> bool {
    &&& gpu.binding_manager.resources_map().contains_key(BindableResourceId::Sampler(id))
    &&& gpu.binding_manager.resources_map()[BindableResourceId::Sampler(id)] is Sampler
}

impl Gpu {
    /// Creates a sampler with the given filtering at a fresh id.
    pub fn create_sampler(&mut self, mode: FilterMode) -> (r: Sampler)
        requires
            old(self).wf(),
            old(self).alloc.samplers.next < u64::MAX,
            old(self).device_handles.next < u64::MAX,
        ensures
            final(self).wf(),
            r.id.0 == old(self).alloc.samplers.next,
            r.sampler == old(self).device_handles.next,
            !old(self).binding_manager.resources_map().contains_key(
                BindableResourceId::Sampler(r.id),
            ),
            has_sampler(*final(self), r.id),
            final(self).binding_manager.resources_map() == old(
                self,
            ).binding_manager.resources_map().insert(
                BindableResourceId::Sampler(r.id),
                BindableResource::Sampler(SamplerState { handle: r.sampler, filter: mode }),
            ),
            final(self).binding_manager.pipelines == old(self).binding_manager.pipelines,
            final(self).binding_manager.collections == old(self).binding_manager.collections,
            final(self).alloc.samplers.next == old(self).alloc.samplers.next + 1,
            final(self).alloc.buffers == old(self).alloc.buffers,
            final(self).alloc.textures == old(self).alloc.textures,
            final(self).alloc.pipelines == old(self).alloc.pipelines,
            final(self).alloc.acceleration_structures == old(self).alloc.acceleration_structures,
            final(self).alloc.collections == old(self).alloc.collections,
            final(self).device_handles.next == old(self).device_handles.next + 1,
            final(self).dispatch_queue == old(self).dispatch_queue,
            final(self).features == old(self).features,
            final(self).default_buffers == old(self).default_buffers,
    {
        let id = self.alloc.next_sampler();
        let rid = BindableResourceId::Sampler(id);
        proof {
            if self.binding_manager.resources_map().contains_key(rid) {
                assert(id_in_range(old(self).alloc, rid));
            }
        }
        let handle = self.device_handles.fresh();
        self.binding_manager.add_resource(
            rid,
            BindableResource::Sampler(SamplerState { handle, filter: mode }),
        );
        proof {
            crate::gpu::lemma_wf_after_resource_insert(
                *old(self),
                *self,
                rid,
                self.binding_manager.resources_map()[rid],
            );
        }
        Sampler { id, sampler: handle }
    }
}

impl Sampler {
    /// Removes the sampler's table entry.
    pub fn destroy(self, gpu: &mut Gpu)
        requires
            old(gpu).wf(),
        ensures
            final(gpu).wf(),
            final(gpu).binding_manager.resources_map() == old(
                gpu,
            ).binding_manager.resources_map().remove(BindableResourceId::Sampler(self.id)),
            final(gpu).binding_manager.pipelines == old(gpu).binding_manager.pipelines,
            final(gpu).binding_manager.collections == old(gpu).binding_manager.collections,
            final(gpu).alloc == old(gpu).alloc,
            final(gpu).device_handles == old(gpu).device_handles,
            final(gpu).dispatch_queue == old(gpu).dispatch_queue,
    {
        gpu.binding_manager.remove_resource(&BindableResourceId::Sampler(self.id));
        proof {
            crate::gpu::lemma_wf_after_resource_remove(
                *old(gpu),
                *gpu,
                BindableResourceId::Sampler(self.id),
            );
        }
    }
}

impl Bindable for Sampler {
    open spec fn id_spec(&self) -> BindableResourceId {
        BindableResourceId::Sampler(self.id)
    }

    open spec fn binding_type_spec(&self) -> BindingType {
        BindingType::Sampler
    }

    open spec fn count_spec(&self) -> Option<u32> {
        None
    }

    fn resource_id(&self) -> (r: BindableResourceId) {
        BindableResourceId::Sampler(self.id)
    }

    fn binding_type(&self) -> (r: BindingType) {
        BindingType::Sampler
    }

    fn count(&self) -> (r: Option<u32>) {
        None
    }
}

} // verus!
