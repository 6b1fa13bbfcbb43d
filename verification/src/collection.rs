//! Texture collections: an ordered list of textures bound as one array slot.
//!
//! A collection maps its own id to the member texture ids; the members must
//! themselves resolve in the table whenever a bind group is built over the
//! collection.

use vstd::prelude::*;

use crate::gpu::Gpu;
use crate::ids::{TextureCollectionId, TextureId};
use crate::resource::{Bindable, BindableResourceId, BindingType};

verus! {

/// An ordered collection of textures bound as a single slot.
pub struct TextureCollection {
    pub id: TextureCollectionId,
    pub members: usize,
}

/// A copy of a texture id list.
fn copy_texture_ids(v: &Vec<TextureId>) -> (r: Vec<TextureId>)
    ensures
        r@ == v@,
{
    let mut r: Vec<TextureId> = Vec::new();
    let mut i: usize = 0;
    while i < v.len()
        invariant
            i <= v@.len(),
            r@ == v@.subrange(0, i as int),
        decreases v@.len() - i,
    {
        r.push(v[i]);
        i = i + 1;
    }
    proof {
        assert(r@ =~= v@);
    }
    r
}

impl Gpu {
    /// Records a collection over the given member textures, in order, at a
    /// fresh id. An array slot cannot be empty.
    pub fn create_texture_collection(&mut self, textures: &Vec<TextureId>) -> (r:
        TextureCollection)
        requires
            old(self).wf(),
            old(self).alloc.collections.next < u64::MAX,
            0 < textures@.len() <= u32::MAX,
        ensures
            final(self).wf(),
            r.id.0 == old(self).alloc.collections.next,
            r.members == textures@.len(),
            !old(self).binding_manager.collections_map().contains_key(r.id),
            final(self).binding_manager.collections_map().contains_key(r.id),
            final(self).binding_manager.collections_map()[r.id]@ == textures@,
            final(self).binding_manager.collections_map().dom() == old(
                self,
            ).binding_manager.collections_map().dom().insert(r.id),
            forall|c: TextureCollectionId|
                #[trigger] old(self).binding_manager.collections_map().contains_key(c)
                    ==> final(self).binding_manager.collections_map()[c]
                    == old(self).binding_manager.collections_map()[c],
            final(self).binding_manager.resources == old(self).binding_manager.resources,
            final(self).binding_manager.pipelines == old(self).binding_manager.pipelines,
            final(self).alloc.collections.next == old(self).alloc.collections.next + 1,
            final(self).alloc.buffers == old(self).alloc.buffers,
            final(self).alloc.textures == old(self).alloc.textures,
            final(self).alloc.samplers == old(self).alloc.samplers,
            final(self).alloc.pipelines == old(self).alloc.pipelines,
            final(self).alloc.acceleration_structures == old(self).alloc.acceleration_structures,
            final(self).device_handles == old(self).device_handles,
            final(self).dispatch_queue == old(self).dispatch_queue,
            final(self).features == old(self).features,
            final(self).default_buffers == old(self).default_buffers,
    {
        let id = self.alloc.next_collection();
        proof {
            if self.binding_manager.collections_map().contains_key(id) {
                assert(id.0 < old(self).alloc.collections.next);
            }
        }
        let members = textures.len();
        self.binding_manager.add_collection(id, copy_texture_ids(textures));
        proof {
            assert(self.binding_manager.collections_map().dom() =~= old(
                self,
            ).binding_manager.collections_map().dom().insert(id));
            assert forall|c: TextureCollectionId|
                #[trigger] self.binding_manager.collections_map().contains_key(c) implies c.0
                < self.alloc.collections.next by {
                if c != id {
                    assert(old(self).binding_manager.collections_map().contains_key(c));
                }
            }
            assert forall|rid: BindableResourceId|
                #[trigger] self.binding_manager.resources_map().contains_key(rid) implies
                crate::gpu::id_in_range(self.alloc, rid)
                && self.binding_manager.resources_map()[rid].handle()
                < self.device_handles.next by {
                assert(old(self).binding_manager.resources_map().contains_key(rid));
            }
            assert forall|p: crate::ids::PipelineId|
                #[trigger] self.binding_manager.pipelines_map().contains_key(p) implies p.0
                < self.alloc.pipelines.next by {
                assert(old(self).binding_manager.pipelines_map().contains_key(p));
            }
        }
        TextureCollection { id, members }
    }
}

impl TextureCollection {
    /// How many textures the collection binds.
    pub fn count(&self) -> (r: usize)
        ensures
            r == self.members,
    {
        self.members
    }

    /// Removes the collection's table entry; the member textures stay.
    pub fn destroy(self, gpu: &mut Gpu)
        requires
            old(gpu).wf(),
        ensures
            final(gpu).wf(),
            final(gpu).binding_manager.collections_map() == old(
                gpu,
            ).binding_manager.collections_map().remove(self.id),
            final(gpu).binding_manager.resources == old(gpu).binding_manager.resources,
            final(gpu).binding_manager.pipelines == old(gpu).binding_manager.pipelines,
            final(gpu).alloc == old(gpu).alloc,
            final(gpu).device_handles == old(gpu).device_handles,
            final(gpu).dispatch_queue == old(gpu).dispatch_queue,
    {
        gpu.binding_manager.remove_collection(&self.id);
        proof {
            assert forall|c: TextureCollectionId|
                #[trigger] gpu.binding_manager.collections_map().contains_key(c) implies c.0
                < gpu.alloc.collections.next by {
                assert(old(gpu).binding_manager.collections_map().contains_key(c));
            }
            assert forall|rid: BindableResourceId|
                #[trigger] gpu.binding_manager.resources_map().contains_key(rid) implies
                crate::gpu::id_in_range(gpu.alloc, rid)
                && gpu.binding_manager.resources_map()[rid].handle()
                < gpu.device_handles.next by {
                assert(old(gpu).binding_manager.resources_map().contains_key(rid));
            }
            assert forall|p: crate::ids::PipelineId|
                #[trigger] gpu.binding_manager.pipelines_map().contains_key(p) implies p.0
                < gpu.alloc.pipelines.next by {
                assert(old(gpu).binding_manager.pipelines_map().contains_key(p));
            }
        }
    }
}

impl Bindable for TextureCollection {
    open spec fn id_spec(&self) -> BindableResourceId {
        BindableResourceId::TextureCollection(self.id)
    }

    open spec fn binding_type_spec(&self) -> BindingType {
        BindingType::Texture { three_dimensional: false }
    }

    open spec fn count_spec(&self) -> Option<u32> {
        if self.members <= u32::MAX {
            Some(self.members as u32)
        } else {
            None
        }
    }

    fn resource_id(&self) -> (r: BindableResourceId) {
        BindableResourceId::TextureCollection(self.id)
    }

    fn binding_type(&self) -> (r: BindingType) {
        BindingType::Texture { three_dimensional: false }
    }

    fn count(&self) -> (r: Option<u32>) {
        if self.members <= u32::MAX as usize {
            Some(self.members as u32)
        } else {
            None
        }
    }
}

} // verus!
