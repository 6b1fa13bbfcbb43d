//! Opaque resource identifiers and the allocator that issues them.
//!
//! Every bindable resource kind gets its own identifier space. Identifiers are
//! issued by counting up and are never reused, even after the resource they
//! named is removed: a stale binding can therefore never silently re-resolve
//! to an unrelated newer resource that happened to be given the same id.

use vstd::prelude::*;

verus! {

/// Identifies one buffer slot in the resource table.
#[derive(Clone, Copy, PartialEq, Eq, Hash, Debug, Structural)]
pub struct BufferId(pub u64);

/// Identifies one texture view slot in the resource table.
#[derive(Clone, Copy, PartialEq, Eq, Hash, Debug, Structural)]
pub struct TextureId(pub u64);

/// Identifies one sampler slot in the resource table.
#[derive(Clone, Copy, PartialEq, Eq, Hash, Debug, Structural)]
pub struct SamplerId(pub u64);

/// Identifies one pipeline in the pipeline registry.
#[derive(Clone, Copy, PartialEq, Eq, Hash, Debug, Structural)]
pub struct PipelineId(pub u64);

/// Identifies one acceleration-structure slot in the resource table.
#[derive(Clone, Copy, PartialEq, Eq, Hash, Debug, Structural)]
pub struct AccelerationStructureId(pub u64);

/// Identifies one ordered collection of textures bound as a single slot.
#[derive(Clone, Copy, PartialEq, Eq, Hash, Debug, Structural)]
pub struct TextureCollectionId(pub u64);

/// Issues identifiers by counting up.
///
/// The ghost set `issued` records every value ever handed out; the invariant
/// that all issued values lie below `next` is what makes every draw fresh.
pub struct IdCounter {
    pub next: u64,
    pub issued: Ghost<Set<u64>>,
}

impl IdCounter {
    /// Every identifier handed out so far lies strictly below the counter.
    pub open spec fn wf(&self) -> bool {
        forall|v: u64| self.issued@.contains(v) ==> v < self.next
    }

    pub fn new() -> (r: IdCounter)
        ensures
            r.wf(),
            r.next == 0,
            r.issued@ == Set::<u64>::empty(),
    {
        IdCounter { next: 0, issued: Ghost(Set::empty()) }
    }

    /// Draws the next identifier. The result was never drawn before, so all
    /// draws from one counter are pairwise distinct.
    pub fn fresh(&mut self) -> (r: u64)
        requires
            old(self).wf(),
            old(self).next < u64::MAX,
        ensures
            final(self).wf(),
            r == old(self).next,
            !old(self).issued@.contains(r),
            final(self).issued@ == old(self).issued@.insert(r),
            final(self).next == old(self).next + 1,
    {
        let r = self.next;
        self.next = self.next + 1;
        self.issued = Ghost(self.issued@.insert(r));
        r
    }
}

/// Issues process-unique identifiers for every bindable resource kind.
///
/// One counter per kind, as the identifier spaces are independent: a
/// `BufferId` and a `TextureId` with equal values name different slots.
pub struct IdAllocator {
    pub buffers: IdCounter,
    pub textures: IdCounter,
    pub samplers: IdCounter,
    pub pipelines: IdCounter,
    pub acceleration_structures: IdCounter,
    pub collections: IdCounter,
}

impl IdAllocator {
    pub open spec fn wf(&self) -> bool {
        &&& self.buffers.wf()
        &&& self.textures.wf()
        &&& self.samplers.wf()
        &&& self.pipelines.wf()
        &&& self.acceleration_structures.wf()
        &&& self.collections.wf()
    }

    /// Whether each counter can still issue an identifier.
    pub open spec fn ids_available(&self) -> bool {
        &&& self.buffers.next < u64::MAX
        &&& self.textures.next < u64::MAX
        &&& self.samplers.next < u64::MAX
        &&& self.pipelines.next < u64::MAX
        &&& self.acceleration_structures.next < u64::MAX
        &&& self.collections.next < u64::MAX
    }

    pub fn new() -> (r: IdAllocator)
        ensures
            r.wf(),
            r.ids_available(),
            r.buffers.next == 0,
            r.textures.next == 0,
            r.samplers.next == 0,
            r.pipelines.next == 0,
            r.acceleration_structures.next == 0,
            r.collections.next == 0,
    {
        IdAllocator {
            buffers: IdCounter::new(),
            textures: IdCounter::new(),
            samplers: IdCounter::new(),
            pipelines: IdCounter::new(),
            acceleration_structures: IdCounter::new(),
            collections: IdCounter::new(),
        }
    }

    /// Draws a fresh buffer id; no earlier draw returned the same id.
    pub fn next_buffer(&mut self) -> (r: BufferId)
        requires
            old(self).wf(),
            old(self).buffers.next < u64::MAX,
        ensures
            final(self).wf(),
            r.0 == old(self).buffers.next,
            !old(self).buffers.issued@.contains(r.0),
            final(self).buffers.issued@ == old(self).buffers.issued@.insert(r.0),
            final(self).buffers.next == old(self).buffers.next + 1,
            final(self).textures == old(self).textures,
            final(self).samplers == old(self).samplers,
            final(self).pipelines == old(self).pipelines,
            final(self).acceleration_structures == old(self).acceleration_structures,
            final(self).collections == old(self).collections,
    {
        BufferId(self.buffers.fresh())
    }

    /// Draws a fresh texture id; no earlier draw returned the same id.
    pub fn next_texture(&mut self) -> (r: TextureId)
        requires
            old(self).wf(),
            old(self).textures.next < u64::MAX,
        ensures
            final(self).wf(),
            r.0 == old(self).textures.next,
            !old(self).textures.issued@.contains(r.0),
            final(self).textures.issued@ == old(self).textures.issued@.insert(r.0),
            final(self).textures.next == old(self).textures.next + 1,
            final(self).buffers == old(self).buffers,
            final(self).samplers == old(self).samplers,
            final(self).pipelines == old(self).pipelines,
            final(self).acceleration_structures == old(self).acceleration_structures,
            final(self).collections == old(self).collections,
    {
        TextureId(self.textures.fresh())
    }

    /// Draws a fresh sampler id; no earlier draw returned the same id.
    pub fn next_sampler(&mut self) -> (r: SamplerId)
        requires
            old(self).wf(),
            old(self).samplers.next < u64::MAX,
        ensures
            final(self).wf(),
            r.0 == old(self).samplers.next,
            !old(self).samplers.issued@.contains(r.0),
            final(self).samplers.issued@ == old(self).samplers.issued@.insert(r.0),
            final(self).samplers.next == old(self).samplers.next + 1,
            final(self).buffers == old(self).buffers,
            final(self).textures == old(self).textures,
            final(self).pipelines == old(self).pipelines,
            final(self).acceleration_structures == old(self).acceleration_structures,
            final(self).collections == old(self).collections,
    {
        SamplerId(self.samplers.fresh())
    }

    /// Draws a fresh pipeline id; no earlier draw returned the same id.
    pub fn next_pipeline(&mut self) -> (r: PipelineId)
        requires
            old(self).wf(),
            old(self).pipelines.next < u64::MAX,
        ensures
            final(self).wf(),
            r.0 == old(self).pipelines.next,
            !old(self).pipelines.issued@.contains(r.0),
            final(self).pipelines.issued@ == old(self).pipelines.issued@.insert(r.0),
            final(self).pipelines.next == old(self).pipelines.next + 1,
            final(self).buffers == old(self).buffers,
            final(self).textures == old(self).textures,
            final(self).samplers == old(self).samplers,
            final(self).acceleration_structures == old(self).acceleration_structures,
            final(self).collections == old(self).collections,
    {
        PipelineId(self.pipelines.fresh())
    }

    /// Draws a fresh acceleration-structure id; no earlier draw returned the same id.
    pub fn next_acceleration_structure(&mut self) -> (r: AccelerationStructureId)
        requires
            old(self).wf(),
            old(self).acceleration_structures.next < u64::MAX,
        ensures
            final(self).wf(),
            r.0 == old(self).acceleration_structures.next,
            !old(self).acceleration_structures.issued@.contains(r.0),
            final(self).acceleration_structures.issued@
                == old(self).acceleration_structures.issued@.insert(r.0),
            final(self).acceleration_structures.next
                == old(self).acceleration_structures.next + 1,
            final(self).buffers == old(self).buffers,
            final(self).textures == old(self).textures,
            final(self).samplers == old(self).samplers,
            final(self).pipelines == old(self).pipelines,
            final(self).collections == old(self).collections,
    {
        AccelerationStructureId(self.acceleration_structures.fresh())
    }

    /// Draws a fresh texture-collection id; no earlier draw returned the same id.
    pub fn next_collection(&mut self) -> (r: TextureCollectionId)
        requires
            old(self).wf(),
            old(self).collections.next < u64::MAX,
        ensures
            final(self).wf(),
            r.0 == old(self).collections.next,
            !old(self).collections.issued@.contains(r.0),
            final(self).collections.issued@ == old(self).collections.issued@.insert(r.0),
            final(self).collections.next == old(self).collections.next + 1,
            final(self).buffers == old(self).buffers,
            final(self).textures == old(self).textures,
            final(self).samplers == old(self).samplers,
            final(self).pipelines == old(self).pipelines,
            final(self).acceleration_structures == old(self).acceleration_structures,
    {
        TextureCollectionId(self.collections.fresh())
    }
}

} // verus!
