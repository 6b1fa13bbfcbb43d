//! The buffer lifecycle: creation, grow-on-upload, readback.
//!
//! Every typed buffer wrapper owns one id and goes through the operations
//! here. An upload that fits the current allocation is written in place; one
//! that exceeds it allocates a new device buffer sized to the content,
//! replaces the table entry at the same id, and propagates dirtiness to the
//! pipelines bound to that id. Shrinking is opt-in: the default upload never
//! reallocates downwards, so a buffer's capacity never decreases behind the
//! caller's back.
//!
//! Readback copies the live buffer into a fresh host-mappable staging buffer
//! through an immediately flushed command; the synchronous path hands the
//! bytes straight back, the asynchronous path hands out a ticket holding the
//! snapshot, which is consumed exactly once when the mapping completes.

use vstd::prelude::*;

use crate::dispatch::Command;
use crate::gpu::{id_in_range, Gpu};
use crate::ids::BufferId;
use crate::manager::dirty_marked;
use crate::resource::{BindableResource, BindableResourceId, BufferUsage, DeviceBuffer};

verus! {

/// Marks whether a shader may write through a binding.
pub trait Mutability {

}

/// The binding is declared read-write in the shader.
pub struct Mutable;

/// The binding is declared read-only in the shader.
pub struct Immutable;

impl Mutability for Mutable {

}

impl Mutability for Immutable {

}

/// A wrapper that stands for one buffer in the resource table.
pub trait BufferBinding {
    spec fn id_spec(&self) -> BufferId;

    fn get_id(&self) -> (r: BufferId)
        ensures
            r == self.id_spec(),
    ;
}

/// What an upload did to the allocation.
#[derive(Clone, Copy, PartialEq, Eq, Debug, Structural)]
pub enum UploadOutcome {
    /// A new device buffer sized to the content replaced the table entry.
    Reallocated,
    /// The bytes were written into the existing allocation.
    WroteInPlace,
}

/// A recoverable error on a buffer transfer.
#[derive(Clone, Copy, PartialEq, Eq, Debug, Structural)]
pub enum BufferError {
    /// The data does not fit the fixed-size allocation it is bound to.
    SizeMismatch { expected: usize, got: usize },
}

/// Whether the table maps `id` to a buffer entry.
pub open spec fn has_buffer(gpu: Gpu, id: BufferId) -> bool {
    &&& gpu.binding_manager.resources_map().contains_key(BindableResourceId::Buffer(id))
    &&& gpu.binding_manager.resources_map()[BindableResourceId::Buffer(id)] is Buffer
}

/// The buffer entry `id` maps to.
pub open spec fn buffer_entry(gpu: Gpu, id: BufferId) -> DeviceBuffer {
    gpu.binding_manager.resources_map()[BindableResourceId::Buffer(id)]->Buffer_0
}

/// When an upload replaces the allocation: the data outgrew it, or shrinking
/// was requested and the size changed at all.
pub open spec fn reallocates(entry: DeviceBuffer, len: nat, shrink: bool) -> bool {
    len > entry.size() || (shrink && len != entry.size())
}

/// Everything an upload does to the context.
///
/// The entry keeps its id and usage either way. On reallocation the entry
/// holds exactly the data at a fresh handle and every pipeline bound to the
/// id is marked dirty; on an in-place write the allocation (handle and
/// capacity) stays, the data overwrites the front of the contents, and no
/// pipeline is touched. Nothing else in the context moves.
pub open spec fn upload_transition(
    pre: Gpu,
    post: Gpu,
    id: BufferId,
    data: Seq<u8>,
    shrink: bool,
    outcome: UploadOutcome,
) -> bool {
    let rid = BindableResourceId::Buffer(id);
    let old_entry = buffer_entry(pre, id);
    let new_entry = buffer_entry(post, id);
    &&& has_buffer(post, id)
    &&& new_entry.usage == old_entry.usage
    &&& post.binding_manager.resources_map() == pre.binding_manager.resources_map().insert(
        rid,
        BindableResource::Buffer(new_entry),
    )
    &&& post.binding_manager.collections_map() == pre.binding_manager.collections_map()
    &&& post.alloc == pre.alloc
    &&& post.dispatch_queue == pre.dispatch_queue
    &&& post.features == pre.features
    &&& post.default_buffers == pre.default_buffers
    &&& if reallocates(old_entry, data.len(), shrink) {
        &&& outcome == UploadOutcome::Reallocated
        &&& new_entry.contents@ == data
        &&& new_entry.handle == pre.device_handles.next
        &&& new_entry.handle != old_entry.handle
        &&& post.device_handles.next == pre.device_handles.next + 1
        &&& dirty_marked(
            pre.binding_manager.pipelines_map(),
            post.binding_manager.pipelines_map(),
            rid,
        )
    } else {
        &&& outcome == UploadOutcome::WroteInPlace
        &&& new_entry.handle == old_entry.handle
        &&& new_entry.size() == old_entry.size()
        &&& new_entry.contents@ == data + old_entry.contents@.skip(data.len() as int)
        &&& post.device_handles == pre.device_handles
        &&& post.binding_manager.pipelines == pre.binding_manager.pipelines
    }
}

/// Everything creating a buffer does to the context: a fresh id (never seen
/// before) now maps to a fresh allocation holding `data`, and nothing else
/// moves.
pub open spec fn create_transition(
    pre: Gpu,
    post: Gpu,
    id: BufferId,
    data: Seq<u8>,
    usage: BufferUsage,
) -> bool {
    let rid = BindableResourceId::Buffer(id);
    &&& id.0 == pre.alloc.buffers.next
    &&& !pre.binding_manager.resources_map().contains_key(rid)
    &&& has_buffer(post, id)
    &&& buffer_entry(post, id).contents@ == data
    &&& buffer_entry(post, id).usage == usage
    &&& buffer_entry(post, id).handle == pre.device_handles.next
    &&& post.binding_manager.resources_map() == pre.binding_manager.resources_map().insert(
        rid,
        BindableResource::Buffer(buffer_entry(post, id)),
    )
    &&& post.binding_manager.pipelines == pre.binding_manager.pipelines
    &&& post.binding_manager.collections_map() == pre.binding_manager.collections_map()
    &&& post.alloc.buffers.next == pre.alloc.buffers.next + 1
    &&& post.alloc.textures == pre.alloc.textures
    &&& post.alloc.samplers == pre.alloc.samplers
    &&& post.alloc.pipelines == pre.alloc.pipelines
    &&& post.alloc.acceleration_structures == pre.alloc.acceleration_structures
    &&& post.alloc.collections == pre.alloc.collections
    &&& post.device_handles.next == pre.device_handles.next + 1
    &&& post.dispatch_queue == pre.dispatch_queue
    &&& post.features == pre.features
    &&& post.default_buffers == pre.default_buffers
}

/// Everything a readback does to the context: one copy into a fresh staging
/// buffer is submitted immediately (flushing the pending batch ahead of it),
/// and nothing else moves.
pub open spec fn download_transition(pre: Gpu, post: Gpu, id: BufferId, staging: u64) -> bool {
    &&& staging == pre.device_handles.next
    &&& post.device_handles.next == pre.device_handles.next + 1
    &&& post.binding_manager == pre.binding_manager
    &&& post.alloc == pre.alloc
    &&& post.features == pre.features
    &&& post.default_buffers == pre.default_buffers
    &&& post.dispatch_queue.pending@.len() == 0
    &&& post.dispatch_queue.pending_callbacks@.len() == 0
    &&& post.dispatch_queue.submitted@ == pre.dispatch_queue.submitted@
        + pre.dispatch_queue.pending@.push(
        Command::CopyBufferToBuffer {
            src: buffer_entry(pre, id).handle,
            dst: staging,
            bytes: buffer_entry(pre, id).contents@.len() as u64,
        },
    )
    &&& post.dispatch_queue.submitted_callbacks@ == pre.dispatch_queue.submitted_callbacks@
        + pre.dispatch_queue.pending_callbacks@
}

/// A copy of a byte vector.
pub(crate) fn copy_bytes(v: &Vec<u8>) -> (r: Vec<u8>)
    ensures
        r@ == v@,
{
    let mut r: Vec<u8> = Vec::new();
    let mut i: usize = 0;
    while i < v.len()
        invariant
            i <= v@.len(),
            r@ == v@.subrange(0, i as int),
        decreases v@.len() - i,
    {
        r.push(v[i]);
        i = i + 1;
    }
    proof {
        assert(r@ =~= v@);
    }
    r
}

/// A byte vector of `len` zeroes.
pub(crate) fn zero_bytes(len: usize) -> (r: Vec<u8>)
    ensures
        r@ == Seq::new(len as nat, |i: int| 0u8),
{
    let mut r: Vec<u8> = Vec::new();
    let mut i: usize = 0;
    while i < len
        invariant
            i <= len,
            r@.len() == i,
            forall|j: int| 0 <= j < i ==> r@[j] == 0u8,
        decreases len - i,
    {
        r.push(0u8);
        i = i + 1;
    }
    proof {
        assert(r@ =~= Seq::new(len as nat, |i: int| 0u8));
    }
    r
}

/// Creates a buffer holding `data` and enters it into the table at a fresh
/// id.
pub(crate) fn create_buffer_with(gpu: &mut Gpu, data: &Vec<u8>, usage: BufferUsage) -> (id:
    BufferId)
    requires
        old(gpu).wf(),
        old(gpu).alloc.buffers.next < u64::MAX,
        old(gpu).device_handles.next < u64::MAX,
    ensures
        final(gpu).wf(),
        create_transition(*old(gpu), *final(gpu), id, data@, usage),
{
    let id = gpu.alloc.next_buffer();
    let rid = BindableResourceId::Buffer(id);
    proof {
        if gpu.binding_manager.resources_map().contains_key(rid) {
            assert(id_in_range(old(gpu).alloc, rid));
        }
    }
    let handle = gpu.device_handles.fresh();
    let contents = copy_bytes(data);
    gpu.binding_manager.add_resource(
        rid,
        BindableResource::Buffer(DeviceBuffer { handle, usage, contents }),
    );
    proof {
        crate::gpu::lemma_wf_after_resource_insert(
            *old(gpu),
            *gpu,
            rid,
            gpu.binding_manager.resources_map()[rid],
        );
    }
    id
}

/// Creates a zero-filled buffer of `size` bytes at a fresh id.
pub(crate) fn create_buffer_empty(gpu: &mut Gpu, size: usize, usage: BufferUsage) -> (id: BufferId)
    requires
        old(gpu).wf(),
        old(gpu).alloc.buffers.next < u64::MAX,
        old(gpu).device_handles.next < u64::MAX,
    ensures
        final(gpu).wf(),
        create_transition(
            *old(gpu),
            *final(gpu),
            id,
            Seq::new(size as nat, |i: int| 0u8),
            usage,
        ),
{
    let id = gpu.alloc.next_buffer();
    let rid = BindableResourceId::Buffer(id);
    proof {
        if gpu.binding_manager.resources_map().contains_key(rid) {
            assert(id_in_range(old(gpu).alloc, rid));
        }
    }
    let handle = gpu.device_handles.fresh();
    let contents = zero_bytes(size);
    gpu.binding_manager.add_resource(
        rid,
        BindableResource::Buffer(DeviceBuffer { handle, usage, contents }),
    );
    proof {
        crate::gpu::lemma_wf_after_resource_insert(
            *old(gpu),
            *gpu,
            rid,
            gpu.binding_manager.resources_map()[rid],
        );
    }
    id
}

/// Uploads `data` into the buffer at `id`: in place when it fits (and
/// shrinking was not asked for), through reallocation and dirty propagation
/// otherwise.
pub(crate) fn upload_bytes(gpu: &mut Gpu, id: BufferId, data: &Vec<u8>, shrink: bool) -> (r:
    UploadOutcome)
    requires
        old(gpu).wf(),
        has_buffer(*old(gpu), id),
        old(gpu).device_handles.next < u64::MAX,
    ensures
        final(gpu).wf(),
        upload_transition(*old(gpu), *final(gpu), id, data@, shrink, r),
{
    let rid = BindableResourceId::Buffer(id);
    let (handle, usage, size) = {
        let entry = gpu.binding_manager.get_resource(&rid).unwrap().expect_buffer();
        (entry.handle, entry.usage, entry.contents.len())
    };
    if data.len() > size || (shrink && data.len() != size) {
        let fresh_handle = gpu.device_handles.fresh();
        let contents = copy_bytes(data);
        gpu.binding_manager.add_resource(
            rid,
            BindableResource::Buffer(DeviceBuffer { handle: fresh_handle, usage, contents }),
        );
        gpu.binding_manager.mark_resource_dirty(&rid);
        proof {
            assert(old(gpu).binding_manager.resources_map().contains_key(rid));
            crate::gpu::lemma_wf_after_resource_insert(
                *old(gpu),
                *gpu,
                rid,
                gpu.binding_manager.resources_map()[rid],
            );
        }
        UploadOutcome::Reallocated
    } else {
        let tail = {
            let entry = gpu.binding_manager.get_resource(&rid).unwrap().expect_buffer();
            copy_bytes(&entry.contents)
        };
        let mut contents = copy_bytes(data);
        let mut j: usize = data.len();
        while j < tail.len()
            invariant
                data@.len() <= j <= tail@.len(),
                contents@ == data@ + tail@.subrange(data@.len() as int, j as int),
            decreases tail@.len() - j,
        {
            let b = tail[j];
            contents.push(b);
            proof {
                assert(contents@ =~= data@ + tail@.subrange(data@.len() as int, j + 1 as int));
            }
            j = j + 1;
        }
        proof {
            assert(tail@.subrange(data@.len() as int, tail@.len() as int) =~= tail@.skip(
                data@.len() as int,
            ));
        }
        gpu.binding_manager.add_resource(
            rid,
            BindableResource::Buffer(DeviceBuffer { handle, usage, contents }),
        );
        proof {
            assert(old(gpu).binding_manager.resources_map().contains_key(rid));
            crate::gpu::lemma_wf_after_resource_insert(
                *old(gpu),
                *gpu,
                rid,
                gpu.binding_manager.resources_map()[rid],
            );
        }
        UploadOutcome::WroteInPlace
    }
}

/// Blocking readback: submits the copy to a fresh staging buffer immediately
/// and returns the buffer's bytes.
pub(crate) fn download_bytes(gpu: &mut Gpu, id: BufferId) -> (r: Vec<u8>)
    requires
        old(gpu).wf(),
        has_buffer(*old(gpu), id),
        old(gpu).device_handles.next < u64::MAX,
    ensures
        final(gpu).wf(),
        r@ == buffer_entry(*old(gpu), id).contents@,
        download_transition(*old(gpu), *final(gpu), id, old(gpu).device_handles.next),
{
    let rid = BindableResourceId::Buffer(id);
    let staging = gpu.device_handles.fresh();
    let (src, len, bytes) = {
        let entry = gpu.binding_manager.get_resource(&rid).unwrap().expect_buffer();
        (entry.handle, entry.contents.len(), copy_bytes(&entry.contents))
    };
    gpu.dispatch(
        Command::CopyBufferToBuffer { src, dst: staging, bytes: len as u64 },
        true,
    );
    bytes
}

/// An asynchronous readback in flight: the snapshot the copy took, waiting
/// for the mapping to complete.
pub struct Readback {
    pub buffer: BufferId,
    pub staging: u64,
    pub bytes: Vec<u8>,
}

impl Readback {
    /// Consumes the ticket and delivers the snapshot — each readback
    /// completes exactly once.
    pub fn complete(self) -> (r: Vec<u8>)
        ensures
            r@ == self.bytes@,
    {
        self.bytes
    }
}

/// Non-blocking readback: submits the copy immediately, as the blocking path
/// does, and hands back a ticket holding the snapshot the copy took. Writes
/// to the buffer after this call do not move the ticket's snapshot.
pub(crate) fn begin_download(gpu: &mut Gpu, id: BufferId) -> (t: Readback)
    requires
        old(gpu).wf(),
        has_buffer(*old(gpu), id),
        old(gpu).device_handles.next < u64::MAX,
    ensures
        final(gpu).wf(),
        t.buffer == id,
        t.staging == old(gpu).device_handles.next,
        t.bytes@ == buffer_entry(*old(gpu), id).contents@,
        download_transition(*old(gpu), *final(gpu), id, old(gpu).device_handles.next),
{
    let rid = BindableResourceId::Buffer(id);
    let staging = gpu.device_handles.fresh();
    let (src, len, bytes) = {
        let entry = gpu.binding_manager.get_resource(&rid).unwrap().expect_buffer();
        (entry.handle, entry.contents.len(), copy_bytes(&entry.contents))
    };
    gpu.dispatch(
        Command::CopyBufferToBuffer { src, dst: staging, bytes: len as u64 },
        true,
    );
    Readback { buffer: id, staging, bytes }
}

/// Round trip: after an upload, the buffer's bytes begin with exactly the
/// bytes uploaded — in full after a reallocation, as the prefix of the kept
/// allocation after an in-place write. A download then returns those bytes.
pub proof fn lemma_upload_round_trip(
    pre: Gpu,
    post: Gpu,
    id: BufferId,
    data: Seq<u8>,
    shrink: bool,
    outcome: UploadOutcome,
)
    requires
        upload_transition(pre, post, id, data, shrink, outcome),
        data.len() <= buffer_entry(post, id).size(),
    ensures
        buffer_entry(post, id).contents@.subrange(0, data.len() as int) == data,
        outcome == UploadOutcome::Reallocated ==> buffer_entry(post, id).contents@ == data,
{
    let new_entry = buffer_entry(post, id);
    if reallocates(buffer_entry(pre, id), data.len(), shrink) {
        assert(new_entry.contents@.subrange(0, data.len() as int) =~= data);
    } else {
        assert(new_entry.contents@.subrange(0, data.len() as int) =~= data);
    }
}

} // verus!
