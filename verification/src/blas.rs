//! Bottom-level acceleration-structure input buffers.
//!
//! These feed geometry to acceleration-structure builds. Their allocation is
//! sized at creation and only ever written in place; they require the
//! ray-tracing capability to have been requested when the context was built.

use vstd::prelude::*;

use crate::buffer::{
    buffer_entry, create_buffer_with, create_transition, has_buffer, upload_bytes,
    upload_transition, BufferBinding, BufferError, UploadOutcome,
};
use crate::gpu::Gpu;
use crate::ids::BufferId;
use crate::resource::{Bindable, BindableResourceId, BindingType, BufferUsage};

verus! {

/// Geometry input for bottom-level acceleration structures.
#[derive(Clone, Copy, PartialEq, Eq, Debug, Structural)]
pub struct BlasBuffer {
    pub buffer: BufferId,
}

impl BlasBuffer {
    /// The table id this wrapper stands for.
    pub open spec fn id(&self) -> BufferId {
        self.buffer
    }

    /// Writes `data` into the front of the allocation in place. Succeeds
    /// exactly when the data fits; on overflow nothing changes and the error
    /// says both sizes. The allocation itself is never replaced.
    pub fn upload(&self, gpu: &mut Gpu, data: &Vec<u8>) -> (r: Result<(), BufferError>)
        requires
            old(gpu).wf(),
            has_buffer(*old(gpu), self.id()),
            old(gpu).device_handles.next < u64::MAX,
        ensures
            final(gpu).wf(),
            match r {
                Ok(()) => data@.len() <= buffer_entry(*old(gpu), self.id()).size()
                    && upload_transition(
                    *old(gpu),
                    *final(gpu),
                    self.id(),
                    data@,
                    false,
                    UploadOutcome::WroteInPlace,
                ),
                Err(e) => {
                    &&& data@.len() > buffer_entry(*old(gpu), self.id()).size()
                    &&& e == (BufferError::SizeMismatch {
                        expected: buffer_entry(*old(gpu), self.id()).contents@.len() as usize,
                        got: data@.len() as usize,
                    })
                    &&& *final(gpu) == *old(gpu)
                },
            },
    {
        let size = {
            let entry = gpu.binding_manager.get_resource(
                &BindableResourceId::Buffer(self.buffer),
            ).unwrap().expect_buffer();
            entry.contents.len()
        };
        if data.len() > size {
            return Err(BufferError::SizeMismatch { expected: size, got: data.len() });
        }
        upload_bytes(gpu, self.buffer, data, false);
        Ok(())
    }
}

impl Gpu {
    /// Creates a geometry input buffer holding `data` at a fresh id. The
    /// ray-tracing capability must have been requested at build time.
    pub fn create_blas(&mut self, data: &Vec<u8>) -> (r: BlasBuffer)
        requires
            old(self).wf(),
            old(self).features.raytracing,
            old(self).alloc.buffers.next < u64::MAX,
            old(self).device_handles.next < u64::MAX,
        ensures
            final(self).wf(),
            create_transition(*old(self), *final(self), r.id(), data@, BufferUsage::BlasInput),
    {
        let id = create_buffer_with(self, data, BufferUsage::BlasInput);
        BlasBuffer { buffer: id }
    }
}

impl BufferBinding for BlasBuffer {
    open spec fn id_spec(&self) -> BufferId {
        self.buffer
    }

    fn get_id(&self) -> (r: BufferId) {
        self.buffer
    }
}

impl Bindable for BlasBuffer {
    open spec fn id_spec(&self) -> BindableResourceId {
        BindableResourceId::Buffer(self.buffer)
    }

    open spec fn binding_type_spec(&self) -> BindingType {
        BindingType::StorageBuffer { read_only: true }
    }

    open spec fn count_spec(&self) -> Option<u32> {
        None
    }

    fn resource_id(&self) -> (r: BindableResourceId) {
        BindableResourceId::Buffer(self.buffer)
    }

    fn binding_type(&self) -> (r: BindingType) {
        BindingType::StorageBuffer { read_only: true }
    }

    fn count(&self) -> (r: Option<u32>) {
        None
    }
}

} // verus!
