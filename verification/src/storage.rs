//! Storage buffers: read or written by shaders, grown on upload.

use vstd::prelude::*;

use std::marker::PhantomData;

use crate::buffer::{
    begin_download, create_buffer_with, create_buffer_empty, download_bytes, upload_bytes,
    buffer_entry, create_transition, download_transition, has_buffer, upload_transition,
    BufferBinding, Immutable, Mutability, Mutable, Readback, UploadOutcome,
};
use crate::gpu::Gpu;
use crate::ids::BufferId;
use crate::resource::{Bindable, BindableResourceId, BindingType, BufferUsage};

verus! {

/// A buffer a shader can read from or write to. The mutability marker picks
/// the read-only or read-write slot declaration.
pub struct StorageBuffer<Mut: Mutability> {
    pub buffer: BufferId,
    pub marker: PhantomData<Mut>,
}

impl<Mut: Mutability> StorageBuffer<Mut> {
    /// The table id this wrapper stands for; it never changes, however often
    /// the allocation behind it is replaced.
    pub open spec fn id(&self) -> BufferId {
        self.buffer
    }

    /// Uploads `data`: in place when it fits the current allocation, else by
    /// replacing the allocation (same id) and marking dependants dirty. Never
    /// shrinks.
    pub fn upload(&self, gpu: &mut Gpu, data: &Vec<u8>) -> (r: UploadOutcome)
        requires
            old(gpu).wf(),
            has_buffer(*old(gpu), self.id()),
            old(gpu).device_handles.next < u64::MAX,
        ensures
            final(gpu).wf(),
            upload_transition(*old(gpu), *final(gpu), self.id(), data@, false, r),
    {
        upload_bytes(gpu, self.buffer, data, false)
    }

    /// Uploads `data`, reallocating to the minimal size whenever the size
    /// changes at all.
    pub fn upload_shrink(&self, gpu: &mut Gpu, data: &Vec<u8>) -> (r: UploadOutcome)
        requires
            old(gpu).wf(),
            has_buffer(*old(gpu), self.id()),
            old(gpu).device_handles.next < u64::MAX,
        ensures
            final(gpu).wf(),
            upload_transition(*old(gpu), *final(gpu), self.id(), data@, true, r),
    {
        upload_bytes(gpu, self.buffer, data, true)
    }

    /// Blocking readback: exactly the buffer's bytes, after one submitted
    /// copy through a fresh staging buffer.
    pub fn download(&self, gpu: &mut Gpu) -> (r: Vec<u8>)
        requires
            old(gpu).wf(),
            has_buffer(*old(gpu), self.id()),
            old(gpu).device_handles.next < u64::MAX,
        ensures
            final(gpu).wf(),
            r@ == buffer_entry(*old(gpu), self.id()).contents@,
            download_transition(*old(gpu), *final(gpu), self.id(), old(gpu).device_handles.next),
    {
        download_bytes(gpu, self.buffer)
    }

    /// Non-blocking readback: submits the copy now and returns the ticket
    /// holding the snapshot; uploads after this call do not move it.
    pub fn download_async(&self, gpu: &mut Gpu) -> (t: Readback)
        requires
            old(gpu).wf(),
            has_buffer(*old(gpu), self.id()),
            old(gpu).device_handles.next < u64::MAX,
        ensures
            final(gpu).wf(),
            t.buffer == self.id(),
            t.bytes@ == buffer_entry(*old(gpu), self.id()).contents@,
            download_transition(*old(gpu), *final(gpu), self.id(), old(gpu).device_handles.next),
    {
        begin_download(gpu, self.buffer)
    }

    /// Removes the buffer's table entry; pipelines still bound to the id are
    /// the caller's responsibility, as entries must outlive their bindings.
    pub fn destroy(self, gpu: &mut Gpu)
        requires
            old(gpu).wf(),
        ensures
            final(gpu).wf(),
            final(gpu).binding_manager.resources_map() == old(
                gpu,
            ).binding_manager.resources_map().remove(BindableResourceId::Buffer(self.id())),
            final(gpu).binding_manager.pipelines == old(gpu).binding_manager.pipelines,
            final(gpu).binding_manager.collections == old(gpu).binding_manager.collections,
            final(gpu).alloc == old(gpu).alloc,
            final(gpu).device_handles == old(gpu).device_handles,
            final(gpu).dispatch_queue == old(gpu).dispatch_queue,
    {
        gpu.binding_manager.remove_resource(&BindableResourceId::Buffer(self.buffer));
        proof {
            crate::gpu::lemma_wf_after_resource_remove(
                *old(gpu),
                *gpu,
                BindableResourceId::Buffer(self.buffer),
            );
        }
    }
}

impl Gpu {
    /// Creates a storage buffer holding `data` at a fresh id.
    pub fn create_storage<Mut: Mutability>(&mut self, data: &Vec<u8>) -> (r: StorageBuffer<Mut>)
        requires
            old(self).wf(),
            old(self).alloc.buffers.next < u64::MAX,
            old(self).device_handles.next < u64::MAX,
        ensures
            final(self).wf(),
            create_transition(*old(self), *final(self), r.id(), data@, BufferUsage::Storage),
    {
        let id = create_buffer_with(self, data, BufferUsage::Storage);
        StorageBuffer { buffer: id, marker: PhantomData }
    }

    /// Creates a zero-filled storage buffer of `size` bytes at a fresh id.
    pub fn create_storage_empty<Mut: Mutability>(&mut self, size: usize) -> (r: StorageBuffer<Mut>)
        requires
            old(self).wf(),
            old(self).alloc.buffers.next < u64::MAX,
            old(self).device_handles.next < u64::MAX,
        ensures
            final(self).wf(),
            create_transition(
                *old(self),
                *final(self),
                r.id(),
                Seq::new(size as nat, |i: int| 0u8),
                BufferUsage::Storage,
            ),
    {
        let id = create_buffer_empty(self, size, BufferUsage::Storage);
        StorageBuffer { buffer: id, marker: PhantomData }
    }
}

impl<Mut: Mutability> BufferBinding for StorageBuffer<Mut> {
    open spec fn id_spec(&self) -> BufferId {
        self.buffer
    }

    fn get_id(&self) -> (r: BufferId) {
        self.buffer
    }
}

impl Bindable for StorageBuffer<Mutable> {
    open spec fn id_spec(&self) -> BindableResourceId {
        BindableResourceId::Buffer(self.buffer)
    }

    open spec fn binding_type_spec(&self) -> BindingType {
        BindingType::StorageBuffer { read_only: false }
    }

    open spec fn count_spec(&self) -> Option<u32> {
        None
    }

    fn resource_id(&self) -> (r: BindableResourceId) {
        BindableResourceId::Buffer(self.buffer)
    }

    fn binding_type(&self) -> (r: BindingType) {
        BindingType::StorageBuffer { read_only: false }
    }

    fn count(&self) -> (r: Option<u32>) {
        None
    }
}

impl Bindable for StorageBuffer<Immutable> {
    open spec fn id_spec(&self) -> BindableResourceId {
        BindableResourceId::Buffer(self.buffer)
    }

    open spec fn binding_type_spec(&self) -> BindingType {
        BindingType::StorageBuffer { read_only: true }
    }

    open spec fn count_spec(&self) -> Option<u32> {
        None
    }

    fn resource_id(&self) -> (r: BindableResourceId) {
        BindableResourceId::Buffer(self.buffer)
    }

    fn binding_type(&self) -> (r: BindingType) {
        BindingType::StorageBuffer { read_only: true }
    }

    fn count(&self) -> (r: Option<u32>) {
        None
    }
}

} // verus!
