//! Acceleration structures for ray-triangle intersection queries.
//!
//! The top-level structure is one table entry like any other bindable
//! resource; rebuilding it marks every pipeline bound to its id dirty and
//! submits a build over the geometry input buffers.

use vstd::prelude::*;

use crate::blas::BlasBuffer;
use crate::dispatch::Command;
use crate::gpu::{id_in_range, Gpu};
use crate::ids::AccelerationStructureId;
use crate::manager::dirty_marked;
use crate::resource::{Bindable, BindableResource, BindableResourceId, BindingType, TlasState};

verus! {

/// One triangle-geometry range within the shared vertex/index/transformation
/// buffers.
#[derive(Clone, Copy, PartialEq, Eq, Debug, Structural)]
pub struct GeometryPrimitive {
    pub first_vertex: u32,
    pub vertex_count: u32,
    pub first_index: u32,
    pub index_count: u32,
    pub transformation_offset: u64,
}

/// One bottom-level geometry: its primitives; the driver holds its placement
/// transform.
pub struct Geometry {
    pub primitives: Vec<GeometryPrimitive>,
}

/// A top-level acceleration structure over shared geometry input buffers.
pub struct AccelerationStructure {
    pub id: AccelerationStructureId,
    pub tlas: u64,
    pub vertices: BlasBuffer,
    pub indices: BlasBuffer,
    pub transformation: BlasBuffer,
    pub geometry: Vec<Geometry>,
}

/// Whether the table maps `id` to an acceleration-structure entry.
pub open spec fn has_tlas(gpu: Gpu, id: AccelerationStructureId) -> bool {
    &&& gpu.binding_manager.resources_map().contains_key(
        BindableResourceId::AccelerationStructure(id),
    )
    &&& gpu.binding_manager.resources_map()[BindableResourceId::AccelerationStructure(id)]
        is AccelerationStructure
}

/// The acceleration-structure entry `id` maps to.
pub open spec fn tlas_entry(gpu: Gpu, id: AccelerationStructureId) -> TlasState {
    gpu.binding_manager.resources_map()[BindableResourceId::AccelerationStructure(
        id,
    )]->AccelerationStructure_0
}

impl AccelerationStructure {
    /// Rebuilds the structure from the current geometry buffers: marks every
    /// pipeline bound to its id dirty and submits the build at once.
    pub fn update(&self, gpu: &mut Gpu)
        requires
            old(gpu).wf(),
            has_tlas(*old(gpu), self.id),
        ensures
            final(gpu).wf(),
            dirty_marked(
                old(gpu).binding_manager.pipelines_map(),
                final(gpu).binding_manager.pipelines_map(),
                BindableResourceId::AccelerationStructure(self.id),
            ),
            final(gpu).binding_manager.resources == old(gpu).binding_manager.resources,
            final(gpu).binding_manager.collections == old(gpu).binding_manager.collections,
            final(gpu).alloc == old(gpu).alloc,
            final(gpu).device_handles == old(gpu).device_handles,
            final(gpu).features == old(gpu).features,
            final(gpu).default_buffers == old(gpu).default_buffers,
            final(gpu).dispatch_queue.pending@.len() == 0,
            final(gpu).dispatch_queue.submitted@ == old(gpu).dispatch_queue.submitted@ + old(
                gpu,
            ).dispatch_queue.pending@.push(
                Command::BuildAccelerationStructures {
                    tlas: tlas_entry(*old(gpu), self.id).handle,
                },
            ),
    {
        let rid = BindableResourceId::AccelerationStructure(self.id);
        gpu.binding_manager.mark_resource_dirty(&rid);
        proof {
            assert forall|p: crate::ids::PipelineId|
                #[trigger] gpu.binding_manager.pipelines_map().contains_key(p) implies p.0
                < gpu.alloc.pipelines.next by {
                assert(old(gpu).binding_manager.pipelines_map().contains_key(p));
            }
            assert forall|c: crate::ids::TextureCollectionId|
                #[trigger] gpu.binding_manager.collections_map().contains_key(c) implies c.0
                < gpu.alloc.collections.next by {
                assert(old(gpu).binding_manager.collections_map().contains_key(c));
            }
            assert forall|rid2: BindableResourceId|
                #[trigger] gpu.binding_manager.resources_map().contains_key(rid2) implies
                id_in_range(gpu.alloc, rid2) && gpu.binding_manager.resources_map()[rid2].handle()
                < gpu.device_handles.next by {
                assert(old(gpu).binding_manager.resources_map().contains_key(rid2));
            }
        }
        let tlas = {
            let package = gpu.binding_manager.get_resource(&rid).unwrap().expect_tlas_package();
            package.handle
        };
        gpu.dispatch(Command::BuildAccelerationStructures { tlas }, true);
    }

    /// Removes the structure's table entry; the geometry buffers stay.
    pub fn destroy(self, gpu: &mut Gpu)
        requires
            old(gpu).wf(),
        ensures
            final(gpu).wf(),
            final(gpu).binding_manager.resources_map() == old(
                gpu,
            ).binding_manager.resources_map().remove(
                BindableResourceId::AccelerationStructure(self.id),
            ),
            final(gpu).binding_manager.pipelines == old(gpu).binding_manager.pipelines,
            final(gpu).binding_manager.collections == old(gpu).binding_manager.collections,
            final(gpu).alloc == old(gpu).alloc,
            final(gpu).device_handles == old(gpu).device_handles,
            final(gpu).dispatch_queue == old(gpu).dispatch_queue,
    {
        gpu.binding_manager.remove_resource(
            &BindableResourceId::AccelerationStructure(self.id),
        );
        proof {
            crate::gpu::lemma_wf_after_resource_remove(
                *old(gpu),
                *gpu,
                BindableResourceId::AccelerationStructure(self.id),
            );
        }
    }
}

impl Gpu {
    /// Creates a top-level structure over the given geometry at a fresh id
    /// and submits its first build at once. The ray-tracing capability must
    /// have been requested at build time.
    pub fn create_acceleration_structure(
        &mut self,
        vertices: BlasBuffer,
        indices: BlasBuffer,
        transformation: BlasBuffer,
        geometry: Vec<Geometry>,
    ) -> (r: AccelerationStructure)
        requires
            old(self).wf(),
            old(self).features.raytracing,
            old(self).alloc.acceleration_structures.next < u64::MAX,
            old(self).device_handles.next < u64::MAX,
            geometry@.len() <= u32::MAX,
        ensures
            final(self).wf(),
            r.id.0 == old(self).alloc.acceleration_structures.next,
            r.tlas == old(self).device_handles.next,
            r.vertices == vertices,
            r.indices == indices,
            r.transformation == transformation,
            !old(self).binding_manager.resources_map().contains_key(
                BindableResourceId::AccelerationStructure(r.id),
            ),
            has_tlas(*final(self), r.id),
            tlas_entry(*final(self), r.id) == (TlasState {
                handle: r.tlas,
                instances: geometry@.len() as u32,
            }),
            final(self).binding_manager.resources_map() == old(
                self,
            ).binding_manager.resources_map().insert(
                BindableResourceId::AccelerationStructure(r.id),
                BindableResource::AccelerationStructure(
                    TlasState { handle: r.tlas, instances: geometry@.len() as u32 },
                ),
            ),
            dirty_marked(
                old(self).binding_manager.pipelines_map(),
                final(self).binding_manager.pipelines_map(),
                BindableResourceId::AccelerationStructure(r.id),
            ),
            final(self).binding_manager.collections == old(self).binding_manager.collections,
            final(self).alloc.acceleration_structures.next == old(
                self,
            ).alloc.acceleration_structures.next + 1,
            final(self).alloc.buffers == old(self).alloc.buffers,
            final(self).alloc.textures == old(self).alloc.textures,
            final(self).alloc.samplers == old(self).alloc.samplers,
            final(self).alloc.pipelines == old(self).alloc.pipelines,
            final(self).alloc.collections == old(self).alloc.collections,
            final(self).device_handles.next == old(self).device_handles.next + 1,
            final(self).dispatch_queue.pending@.len() == 0,
            final(self).dispatch_queue.submitted@ == old(self).dispatch_queue.submitted@ + old(
                self,
            ).dispatch_queue.pending@.push(
                Command::BuildAccelerationStructures { tlas: r.tlas },
            ),
            final(self).features == old(self).features,
            final(self).default_buffers == old(self).default_buffers,
    {
        let handle = self.device_handles.fresh();
        let id = self.alloc.next_acceleration_structure();
        let rid = BindableResourceId::AccelerationStructure(id);
        proof {
            if self.binding_manager.resources_map().contains_key(rid) {
                assert(id_in_range(old(self).alloc, rid));
            }
        }
        let instances = geometry.len() as u32;
        self.binding_manager.add_resource(
            rid,
            BindableResource::AccelerationStructure(TlasState { handle, instances }),
        );
        proof {
            crate::gpu::lemma_wf_after_resource_insert(
                *old(self),
                *self,
                rid,
                self.binding_manager.resources_map()[rid],
            );
        }
        let this = AccelerationStructure {
            id,
            tlas: handle,
            vertices,
            indices,
            transformation,
            geometry,
        };
        this.update(self);
        this
    }
}

impl Bindable for AccelerationStructure {
    open spec fn id_spec(&self) -> BindableResourceId {
        BindableResourceId::AccelerationStructure(self.id)
    }

    open spec fn binding_type_spec(&self) -> BindingType {
        BindingType::AccelerationStructure
    }

    open spec fn count_spec(&self) -> Option<u32> {
        None
    }

    fn resource_id(&self) -> (r: BindableResourceId) {
        BindableResourceId::AccelerationStructure(self.id)
    }

    fn binding_type(&self) -> (r: BindingType) {
        BindingType::AccelerationStructure
    }

    fn count(&self) -> (r: Option<u32>) {
        None
    }
}

} // verus!
