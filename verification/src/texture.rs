//! Textures: creation, upload, and copies into buffers.
//!
//! A texture entry models the image memory byte for byte (four bytes per
//! texel), so a copy into a buffer is specified exactly: the buffer's front
//! is overwritten with the texture's bytes.

use vstd::prelude::*;

use std::marker::PhantomData;

use crate::buffer::{buffer_entry, has_buffer, BufferBinding};
use crate::dispatch::Command;
use crate::gpu::{id_in_range, Gpu};
use crate::ids::TextureId;
use crate::resource::{
    Bindable, BindableResource, BindableResourceId, BindingType, TextureViewState,
};

verus! {

/// The texel layouts the device is asked for.
#[derive(Clone, Copy, PartialEq, Eq, Debug, Structural)]
pub enum TextureFormatKind {
    Rgba8Unorm,
    Depth24PlusStencil8,
}

/// A marker type naming one texel layout.
pub trait TextureFormat {
    spec fn format_spec() -> TextureFormatKind;

    fn as_format() -> (r: TextureFormatKind)
        ensures
            r == Self::format_spec(),
    ;
}

/// Four bytes per texel, red-green-blue-alpha.
pub struct Rgba8;

impl TextureFormat for Rgba8 {
    open spec fn format_spec() -> TextureFormatKind {
        TextureFormatKind::Rgba8Unorm
    }

    fn as_format() -> (r: TextureFormatKind) {
        TextureFormatKind::Rgba8Unorm
    }
}

/// A depth-stencil layout for depth testing.
pub struct Depth;

impl TextureFormat for Depth {
    open spec fn format_spec() -> TextureFormatKind {
        TextureFormatKind::Depth24PlusStencil8
    }

    fn as_format() -> (r: TextureFormatKind) {
        TextureFormatKind::Depth24PlusStencil8
    }
}

/// A texture and the view bound through the table.
pub struct Texture<Format: TextureFormat> {
    pub id: TextureId,
    pub texture: u64,
    pub width: u32,
    pub height: u32,
    pub depth: u32,
    pub marker: PhantomData<Format>,
}

/// Whether the table maps `id` to a texture view entry.
pub open spec fn has_texture(gpu: Gpu, id: TextureId) -> bool {
    &&& gpu.binding_manager.resources_map().contains_key(BindableResourceId::Texture(id))
    &&& gpu.binding_manager.resources_map()[BindableResourceId::Texture(id)] is Texture
}

/// The texture view entry `id` maps to.
pub open spec fn texture_entry(gpu: Gpu, id: TextureId) -> TextureViewState {
    gpu.binding_manager.resources_map()[BindableResourceId::Texture(id)]->Texture_0
}

impl<Format: TextureFormat> Texture<Format> {
    /// Replaces the texture's texels through the queue; the data must cover
    /// the image exactly — a partial write is an invariant violation.
    pub fn upload(&self, gpu: &mut Gpu, data: &Vec<u8>)
        requires
            old(gpu).wf(),
            has_texture(*old(gpu), self.id),
            data@.len() == texture_entry(*old(gpu), self.id).contents@.len(),
        ensures
            final(gpu).wf(),
            has_texture(*final(gpu), self.id),
            texture_entry(*final(gpu), self.id).contents@ == data@,
            texture_entry(*final(gpu), self.id).handle == texture_entry(
                *old(gpu),
                self.id,
            ).handle,
            texture_entry(*final(gpu), self.id).width == texture_entry(*old(gpu), self.id).width,
            texture_entry(*final(gpu), self.id).height == texture_entry(
                *old(gpu),
                self.id,
            ).height,
            final(gpu).binding_manager.resources_map() == old(
                gpu,
            ).binding_manager.resources_map().insert(
                BindableResourceId::Texture(self.id),
                BindableResource::Texture(texture_entry(*final(gpu), self.id)),
            ),
            final(gpu).binding_manager.pipelines == old(gpu).binding_manager.pipelines,
            final(gpu).binding_manager.collections == old(gpu).binding_manager.collections,
            final(gpu).alloc == old(gpu).alloc,
            final(gpu).device_handles == old(gpu).device_handles,
            final(gpu).dispatch_queue == old(gpu).dispatch_queue,
            final(gpu).features == old(gpu).features,
            final(gpu).default_buffers == old(gpu).default_buffers,
    {
        let rid = BindableResourceId::Texture(self.id);
        let (handle, width, height) = {
            let view = gpu.binding_manager.get_resource(&rid).unwrap().expect_texture_view();
            (view.handle, view.width, view.height)
        };
        let contents = crate::buffer::copy_bytes(data);
        gpu.binding_manager.add_resource(
            rid,
            BindableResource::Texture(TextureViewState { handle, width, height, contents }),
        );
        proof {
            crate::gpu::lemma_wf_after_resource_insert(
                *old(gpu),
                *gpu,
                rid,
                gpu.binding_manager.resources_map()[rid],
            );
        }
    }

    /// Copies the texture's bytes into the front of `buffer` through one
    /// immediately submitted copy command; the buffer must have room.
    pub fn copy_to_buffer<B: BufferBinding>(&self, gpu: &mut Gpu, buffer: &B)
        requires
            old(gpu).wf(),
            has_texture(*old(gpu), self.id),
            has_buffer(*old(gpu), buffer.id_spec()),
            texture_entry(*old(gpu), self.id).contents@.len() <= buffer_entry(
                *old(gpu),
                buffer.id_spec(),
            ).size(),
        ensures
            final(gpu).wf(),
            has_buffer(*final(gpu), buffer.id_spec()),
            buffer_entry(*final(gpu), buffer.id_spec()).contents@ == texture_entry(
                *old(gpu),
                self.id,
            ).contents@ + buffer_entry(*old(gpu), buffer.id_spec()).contents@.skip(
                texture_entry(*old(gpu), self.id).contents@.len() as int,
            ),
            buffer_entry(*final(gpu), buffer.id_spec()).handle == buffer_entry(
                *old(gpu),
                buffer.id_spec(),
            ).handle,
            buffer_entry(*final(gpu), buffer.id_spec()).size() == buffer_entry(
                *old(gpu),
                buffer.id_spec(),
            ).size(),
            final(gpu).binding_manager.resources_map() == old(
                gpu,
            ).binding_manager.resources_map().insert(
                BindableResourceId::Buffer(buffer.id_spec()),
                BindableResource::Buffer(buffer_entry(*final(gpu), buffer.id_spec())),
            ),
            final(gpu).binding_manager.pipelines == old(gpu).binding_manager.pipelines,
            final(gpu).binding_manager.collections == old(gpu).binding_manager.collections,
            final(gpu).alloc == old(gpu).alloc,
            final(gpu).device_handles == old(gpu).device_handles,
            final(gpu).dispatch_queue.pending@.len() == 0,
            final(gpu).dispatch_queue.submitted@ == old(gpu).dispatch_queue.submitted@ + old(
                gpu,
            ).dispatch_queue.pending@.push(
                Command::CopyTextureToBuffer {
                    texture: texture_entry(*old(gpu), self.id).handle,
                    buffer: buffer_entry(*old(gpu), buffer.id_spec()).handle,
                },
            ),
    {
        let rid = BindableResourceId::Texture(self.id);
        let bid = BindableResourceId::Buffer(buffer.get_id());
        let (texture_handle, texels) = {
            let view = gpu.binding_manager.get_resource(&rid).unwrap().expect_texture_view();
            (view.handle, crate::buffer::copy_bytes(&view.contents))
        };
        let (buffer_handle, usage, tail) = {
            let entry = gpu.binding_manager.get_resource(&bid).unwrap().expect_buffer();
            (entry.handle, entry.usage, crate::buffer::copy_bytes(&entry.contents))
        };
        let mut contents = texels;
        let mut j: usize = contents.len();
        while j < tail.len()
            invariant
                texture_entry(*old(gpu), self.id).contents@.len() <= j <= tail@.len(),
                contents@ == texture_entry(*old(gpu), self.id).contents@ + tail@.subrange(
                    texture_entry(*old(gpu), self.id).contents@.len() as int,
                    j as int,
                ),
                contents@.len() == j,
            decreases tail@.len() - j,
        {
            let b = tail[j];
            contents.push(b);
            proof {
                assert(contents@ =~= texture_entry(*old(gpu), self.id).contents@ + tail@.subrange(
                    texture_entry(*old(gpu), self.id).contents@.len() as int,
                    j + 1 as int,
                ));
            }
            j = j + 1;
        }
        proof {
            assert(contents@ =~= texture_entry(*old(gpu), self.id).contents@ + tail@.skip(
                texture_entry(*old(gpu), self.id).contents@.len() as int,
            ));
        }
        gpu.binding_manager.add_resource(
            bid,
            BindableResource::Buffer(
                crate::resource::DeviceBuffer { handle: buffer_handle, usage, contents },
            ),
        );
        proof {
            assert(old(gpu).binding_manager.resources_map().contains_key(bid));
            crate::gpu::lemma_wf_after_resource_insert(
                *old(gpu),
                *gpu,
                bid,
                gpu.binding_manager.resources_map()[bid],
            );
        }
        gpu.dispatch(
            Command::CopyTextureToBuffer { texture: texture_handle, buffer: buffer_handle },
            true,
        );
    }
}

impl Gpu {
    /// Creates a two-dimensional texture of the given size at a fresh id; its
    /// texels start zeroed, four bytes each.
    pub fn create_texture_2d<Format: TextureFormat>(&mut self, width: u32, height: u32) -> (r:
        Texture<Format>)
        requires
            old(self).wf(),
            old(self).alloc.textures.next < u64::MAX,
            old(self).device_handles.next < u64::MAX,
            (width as nat) * (height as nat) <= usize::MAX / 4,
        ensures
            final(self).wf(),
            r.id.0 == old(self).alloc.textures.next,
            r.width == width,
            r.height == height,
            r.depth == 1,
            r.texture == old(self).device_handles.next,
            !old(self).binding_manager.resources_map().contains_key(
                BindableResourceId::Texture(r.id),
            ),
            has_texture(*final(self), r.id),
            texture_entry(*final(self), r.id).handle == r.texture,
            texture_entry(*final(self), r.id).width == width,
            texture_entry(*final(self), r.id).height == height,
            texture_entry(*final(self), r.id).contents@ == Seq::new(
                4 * ((width as nat) * (height as nat)),
                |i: int| 0u8,
            ),
            final(self).binding_manager.resources_map() == old(
                self,
            ).binding_manager.resources_map().insert(
                BindableResourceId::Texture(r.id),
                BindableResource::Texture(texture_entry(*final(self), r.id)),
            ),
            final(self).binding_manager.pipelines == old(self).binding_manager.pipelines,
            final(self).binding_manager.collections == old(self).binding_manager.collections,
            final(self).alloc.textures.next == old(self).alloc.textures.next + 1,
            final(self).alloc.buffers == old(self).alloc.buffers,
            final(self).alloc.samplers == old(self).alloc.samplers,
            final(self).alloc.pipelines == old(self).alloc.pipelines,
            final(self).alloc.acceleration_structures == old(self).alloc.acceleration_structures,
            final(self).alloc.collections == old(self).alloc.collections,
            final(self).device_handles.next == old(self).device_handles.next + 1,
            final(self).dispatch_queue == old(self).dispatch_queue,
            final(self).features == old(self).features,
            final(self).default_buffers == old(self).default_buffers,
    {
        let id = self.alloc.next_texture();
        let rid = BindableResourceId::Texture(id);
        proof {
            if self.binding_manager.resources_map().contains_key(rid) {
                assert(id_in_range(old(self).alloc, rid));
            }
        }
        let handle = self.device_handles.fresh();
        let texels = (width as usize) * (height as usize) * 4;
        let contents = crate::buffer::zero_bytes(texels);
        self.binding_manager.add_resource(
            rid,
            BindableResource::Texture(TextureViewState { handle, width, height, contents }),
        );
        proof {
            crate::gpu::lemma_wf_after_resource_insert(
                *old(self),
                *self,
                rid,
                self.binding_manager.resources_map()[rid],
            );
        }
        Texture { id, texture: handle, width, height, depth: 1, marker: PhantomData }
    }
}

impl<Format: TextureFormat> Bindable for Texture<Format> {
    open spec fn id_spec(&self) -> BindableResourceId {
        BindableResourceId::Texture(self.id)
    }

    open spec fn binding_type_spec(&self) -> BindingType {
        BindingType::Texture { three_dimensional: self.depth > 1 }
    }

    open spec fn count_spec(&self) -> Option<u32> {
        None
    }

    fn resource_id(&self) -> (r: BindableResourceId) {
        BindableResourceId::Texture(self.id)
    }

    fn binding_type(&self) -> (r: BindingType) {
        BindingType::Texture { three_dimensional: self.depth > 1 }
    }

    fn count(&self) -> (r: Option<u32>) {
        None
    }
}

} // verus!
