//! Uniform buffers: small fixed-size read-only data.
//!
//! A uniform buffer never reallocates: its allocation is sized once, to the
//! serialized footprint of the value it holds, and every upload must match
//! that footprint exactly. Data of any other size is rejected as a
//! recoverable error, never written partially.

use vstd::prelude::*;

use crate::buffer::{
    buffer_entry, create_buffer_with, create_transition, has_buffer, upload_bytes,
    upload_transition, BufferBinding, BufferError, UploadOutcome,
};
use crate::gpu::Gpu;
use crate::ids::BufferId;
use crate::resource::{Bindable, BindableResourceId, BindingType, BufferUsage};

verus! {

/// A buffer for passing small amounts of read-only data to shaders.
pub struct UniformBuffer {
    pub buffer: BufferId,
}

impl UniformBuffer {
    /// The table id this wrapper stands for.
    pub open spec fn id(&self) -> BufferId {
        self.buffer
    }

    /// Uploads `data` in place. Succeeds exactly when the data matches the
    /// allocation's size; on a mismatch nothing changes and the error says
    /// both sizes. A uniform buffer is never reallocated, so its capacity,
    /// allocation and table entry identity are constant for life.
    pub fn upload(&self, gpu: &mut Gpu, data: &Vec<u8>) -> (r: Result<(), BufferError>)
        requires
            old(gpu).wf(),
            has_buffer(*old(gpu), self.id()),
            old(gpu).device_handles.next < u64::MAX,
        ensures
            final(gpu).wf(),
            match r {
                Ok(()) => data@.len() == buffer_entry(*old(gpu), self.id()).size()
                    && upload_transition(
                    *old(gpu),
                    *final(gpu),
                    self.id(),
                    data@,
                    false,
                    UploadOutcome::WroteInPlace,
                ),
                Err(e) => {
                    &&& data@.len() != buffer_entry(*old(gpu), self.id()).size()
                    &&& e == (BufferError::SizeMismatch {
                        expected: buffer_entry(*old(gpu), self.id()).contents@.len() as usize,
                        got: data@.len() as usize,
                    })
                    &&& *final(gpu) == *old(gpu)
                },
            },
    {
        let size = {
            let entry = gpu.binding_manager.get_resource(
                &BindableResourceId::Buffer(self.buffer),
            ).unwrap().expect_buffer();
            entry.contents.len()
        };
        if data.len() != size {
            return Err(BufferError::SizeMismatch { expected: size, got: data.len() });
        }
        upload_bytes(gpu, self.buffer, data, false);
        Ok(())
    }
}

impl Gpu {
    /// Creates a uniform buffer holding `data` at a fresh id; its size is
    /// fixed to `data`'s length for life.
    pub fn create_uniform(&mut self, data: &Vec<u8>) -> (r: UniformBuffer)
        requires
            old(self).wf(),
            old(self).alloc.buffers.next < u64::MAX,
            old(self).device_handles.next < u64::MAX,
        ensures
            final(self).wf(),
            create_transition(*old(self), *final(self), r.id(), data@, BufferUsage::Uniform),
    {
        let id = create_buffer_with(self, data, BufferUsage::Uniform);
        UniformBuffer { buffer: id }
    }
}

impl BufferBinding for UniformBuffer {
    open spec fn id_spec(&self) -> BufferId {
        self.buffer
    }

    fn get_id(&self) -> (r: BufferId) {
        self.buffer
    }
}

impl Bindable for UniformBuffer {
    open spec fn id_spec(&self) -> BindableResourceId {
        BindableResourceId::Buffer(self.buffer)
    }

    open spec fn binding_type_spec(&self) -> BindingType {
        BindingType::UniformBuffer
    }

    open spec fn count_spec(&self) -> Option<u32> {
        None
    }

    fn resource_id(&self) -> (r: BindableResourceId) {
        BindableResourceId::Buffer(self.buffer)
    }

    fn binding_type(&self) -> (r: BindingType) {
        BindingType::UniformBuffer
    }

    fn count(&self) -> (r: Option<u32>) {
        None
    }
}

} // verus!
