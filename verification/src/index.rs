//! Index buffers: mesh indices, stored as little-endian 32-bit words.

use vstd::prelude::*;

use crate::buffer::{
    create_buffer_empty, create_buffer_with, create_transition, has_buffer, upload_bytes,
    upload_transition, BufferBinding, UploadOutcome,
};
use crate::codec::{encode_u32s, u32s_le};
use crate::gpu::Gpu;
use crate::ids::BufferId;
use crate::resource::{Bindable, BindableResourceId, BindingType, BufferUsage};

verus! {

/// The indices of a mesh.
pub struct IndexBuffer {
    pub buffer: BufferId,
}

impl IndexBuffer {
    /// The table id this wrapper stands for.
    pub open spec fn id(&self) -> BufferId {
        self.buffer
    }

    /// Uploads the indices in their little-endian byte layout: in place when
    /// they fit, else by replacing the allocation (same id) and marking
    /// dependants dirty. Never shrinks.
    pub fn upload(&self, gpu: &mut Gpu, data: &Vec<u32>) -> (r: UploadOutcome)
        requires
            old(gpu).wf(),
            has_buffer(*old(gpu), self.id()),
            old(gpu).device_handles.next < u64::MAX,
        ensures
            final(gpu).wf(),
            upload_transition(*old(gpu), *final(gpu), self.id(), u32s_le(data@), false, r),
    {
        let bytes = encode_u32s(data);
        upload_bytes(gpu, self.buffer, &bytes, false)
    }
}

impl Gpu {
    /// Creates an index buffer holding `data` at a fresh id, in the
    /// little-endian byte layout.
    pub fn create_index(&mut self, data: &Vec<u32>) -> (r: IndexBuffer)
        requires
            old(self).wf(),
            old(self).alloc.buffers.next < u64::MAX,
            old(self).device_handles.next < u64::MAX,
        ensures
            final(self).wf(),
            create_transition(*old(self), *final(self), r.id(), u32s_le(data@), BufferUsage::Index),
    {
        let bytes = encode_u32s(data);
        let id = create_buffer_with(self, &bytes, BufferUsage::Index);
        IndexBuffer { buffer: id }
    }

    /// Creates a zero-filled index buffer with room for `count` indices at a
    /// fresh id.
    pub fn create_index_empty(&mut self, count: usize) -> (r: IndexBuffer)
        requires
            old(self).wf(),
            old(self).alloc.buffers.next < u64::MAX,
            old(self).device_handles.next < u64::MAX,
            count <= usize::MAX / 4,
        ensures
            final(self).wf(),
            create_transition(
                *old(self),
                *final(self),
                r.id(),
                Seq::new((4 * count) as nat, |i: int| 0u8),
                BufferUsage::Index,
            ),
    {
        let id = create_buffer_empty(self, 4 * count, BufferUsage::Index);
        IndexBuffer { buffer: id }
    }
}

impl BufferBinding for IndexBuffer {
    open spec fn id_spec(&self) -> BufferId {
        self.buffer
    }

    fn get_id(&self) -> (r: BufferId) {
        self.buffer
    }
}

impl Bindable for IndexBuffer {
    open spec fn id_spec(&self) -> BindableResourceId {
        BindableResourceId::Buffer(self.buffer)
    }

    open spec fn binding_type_spec(&self) -> BindingType {
        BindingType::StorageBuffer { read_only: false }
    }

    open spec fn count_spec(&self) -> Option<u32> {
        None
    }

    fn resource_id(&self) -> (r: BindableResourceId) {
        BindableResourceId::Buffer(self.buffer)
    }

    fn binding_type(&self) -> (r: BindingType) {
        BindingType::StorageBuffer { read_only: false }
    }

    fn count(&self) -> (r: Option<u32>) {
        None
    }
}

} // verus!
