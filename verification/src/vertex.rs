//! Vertex buffers: mesh vertices, grown on upload like storage buffers.

use vstd::prelude::*;

use crate::buffer::{
    create_buffer_empty, create_buffer_with, create_transition, has_buffer, upload_bytes,
    upload_transition, BufferBinding, UploadOutcome,
};
use crate::gpu::Gpu;
use crate::ids::BufferId;
use crate::resource::{Bindable, BindableResourceId, BindingType, BufferUsage};

verus! {

/// The vertices of a mesh.
pub struct VertexBuffer {
    pub buffer: BufferId,
}

impl VertexBuffer {
    /// The table id this wrapper stands for.
    pub open spec fn id(&self) -> BufferId {
        self.buffer
    }

    /// Uploads `data`: in place when it fits, else by replacing the
    /// allocation (same id) and marking dependants dirty. Never shrinks.
    pub fn upload(&self, gpu: &mut Gpu, data: &Vec<u8>) -> (r: UploadOutcome)
        requires
            old(gpu).wf(),
            has_buffer(*old(gpu), self.id()),
            old(gpu).device_handles.next < u64::MAX,
        ensures
            final(gpu).wf(),
            upload_transition(*old(gpu), *final(gpu), self.id(), data@, false, r),
    {
        upload_bytes(gpu, self.buffer, data, false)
    }
}

impl Gpu {
    /// Creates a vertex buffer holding `data` at a fresh id.
    pub fn create_vertex(&mut self, data: &Vec<u8>) -> (r: VertexBuffer)
        requires
            old(self).wf(),
            old(self).alloc.buffers.next < u64::MAX,
            old(self).device_handles.next < u64::MAX,
        ensures
            final(self).wf(),
            create_transition(*old(self), *final(self), r.id(), data@, BufferUsage::Vertex),
    {
        let id = create_buffer_with(self, data, BufferUsage::Vertex);
        VertexBuffer { buffer: id }
    }

    /// Creates a zero-filled vertex buffer of `size` bytes at a fresh id.
    pub fn create_vertex_empty(&mut self, size: usize) -> (r: VertexBuffer)
        requires
            old(self).wf(),
            old(self).alloc.buffers.next < u64::MAX,
            old(self).device_handles.next < u64::MAX,
        ensures
            final(self).wf(),
            create_transition(
                *old(self),
                *final(self),
                r.id(),
                Seq::new(size as nat, |i: int| 0u8),
                BufferUsage::Vertex,
            ),
    {
        let id = create_buffer_empty(self, size, BufferUsage::Vertex);
        VertexBuffer { buffer: id }
    }
}

impl BufferBinding for VertexBuffer {
    open spec fn id_spec(&self) -> BufferId {
        self.buffer
    }

    fn get_id(&self) -> (r: BufferId) {
        self.buffer
    }
}

impl Bindable for VertexBuffer {
    open spec fn id_spec(&self) -> BindableResourceId {
        BindableResourceId::Buffer(self.buffer)
    }

    open spec fn binding_type_spec(&self) -> BindingType {
        BindingType::StorageBuffer { read_only: false }
    }

    open spec fn count_spec(&self) -> Option<u32> {
        None
    }

    fn resource_id(&self) -> (r: BindableResourceId) {
        BindableResourceId::Buffer(self.buffer)
    }

    fn binding_type(&self) -> (r: BindingType) {
        BindingType::StorageBuffer { read_only: false }
    }

    fn count(&self) -> (r: Option<u32>) {
        None
    }
}

} // verus!
