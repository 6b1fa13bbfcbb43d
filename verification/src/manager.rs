//! The binding manager: the resource table, the pipeline registry, the
//! texture-collection table, dirty propagation, and bind-group construction.
//!
//! Replacing a table entry keeps its id, which is how buffer growth stays
//! invisible to the pipelines holding only ids; the manager's job is to mark
//! exactly the pipelines whose id lists contain a replaced id as dirty, and to
//! rebuild bind groups positionally from the current table contents.

use vstd::prelude::*;

use crate::ids::{PipelineId, TextureCollectionId, TextureId};
use crate::resource::{BindableResource, BindableResourceId};
use crate::table::Table;

verus! {

/// What the registry tracks per pipeline: the ordered id list its bind group
/// was declared over (fixed at construction), and whether the bind group no
/// longer reflects the table.
pub struct PipelineStatus {
    pub resources: Vec<BindableResourceId>,
    pub dirty: bool,
}

/// A resource as it appears in one slot of a built bind group.
pub enum BoundResource {
    EntireBuffer { handle: u64 },
    TextureView { handle: u64 },
    Sampler { handle: u64 },
    AccelerationStructure { handle: u64 },
    TextureViewArray { handles: Vec<u64> },
}

/// One slot of a built bind group.
pub struct BindGroupEntry {
    pub binding: u32,
    pub resource: BoundResource,
}

/// A built bind group: the resolved resource for each slot, in slot order.
pub struct BindGroup {
    pub entries: Vec<BindGroupEntry>,
}

/// Tracks every live resource, collection, and pipeline.
pub struct BindingManager {
    pub pipelines: Table<PipelineId, PipelineStatus>,
    pub resources: Table<BindableResourceId, BindableResource>,
    pub collections: Table<TextureCollectionId, Vec<TextureId>>,
}

/// How one dirty-propagation pass changes the registry: nothing but the dirty
/// flags move, and each flag is or-ed with whether that pipeline's id list
/// contains the replaced id.
pub open spec fn dirty_marked(
    before: Map<PipelineId, PipelineStatus>,
    after: Map<PipelineId, PipelineStatus>,
    id: BindableResourceId,
) -> bool {
    &&& after.dom() == before.dom()
    &&& forall|p: PipelineId| #[trigger] before.contains_key(p) ==> {
        &&& after[p].resources@ == before[p].resources@
        &&& after[p].dirty == (before[p].dirty || before[p].resources@.contains(id))
    }
}

/// How registering a pipeline changes the registry: one fresh entry with a
/// clean dirty flag and the given id list appears, everything else stays.
pub open spec fn pipeline_registered(
    before: Map<PipelineId, PipelineStatus>,
    after: Map<PipelineId, PipelineStatus>,
    id: PipelineId,
    entries: Seq<BindableResourceId>,
) -> bool {
    &&& !before.contains_key(id)
    &&& after.dom() == before.dom().insert(id)
    &&& after[id].resources@ == entries
    &&& after[id].dirty == false
    &&& forall|p: PipelineId| #[trigger] before.contains_key(p) ==> after[p] == before[p]
}

/// How a lazy rebuild changes the registry: the pipeline's dirty flag is
/// clean afterwards, its id list and everything else stay.
pub open spec fn pipeline_cleaned(
    before: Map<PipelineId, PipelineStatus>,
    after: Map<PipelineId, PipelineStatus>,
    id: PipelineId,
) -> bool {
    &&& before.contains_key(id)
    &&& after.dom() == before.dom()
    &&& after[id].resources@ == before[id].resources@
    &&& after[id].dirty == false
    &&& forall|p: PipelineId|
        #[trigger] before.contains_key(p) && p != id ==> after[p] == before[p]
}

/// Whether `v` holds `id`.
fn contains_id(v: &Vec<BindableResourceId>, id: &BindableResourceId) -> (r: bool)
    ensures
        r == v@.contains(*id),
{
    let mut i: usize = 0;
    while i < v.len()
        invariant
            i <= v@.len(),
            forall|j: int| 0 <= j < i ==> v@[j] != *id,
        decreases v@.len() - i,
    {
        if v[i] == *id {
            return true;
        }
        i = i + 1;
    }
    false
}

/// A copy of an id list.
pub(crate) fn copy_ids(v: &Vec<BindableResourceId>) -> (r: Vec<BindableResourceId>)
    ensures
        r@ == v@,
{
    let mut r: Vec<BindableResourceId> = Vec::new();
    let mut i: usize = 0;
    while i < v.len()
        invariant
            i <= v@.len(),
            r@ == v@.subrange(0, i as int),
        decreases v@.len() - i,
    {
        r.push(v[i]);
        i = i + 1;
    }
    proof {
        assert(r@ =~= v@);
    }
    r
}

impl BindingManager {
    pub open spec fn wf(&self) -> bool {
        &&& self.pipelines.wf()
        &&& self.resources.wf()
        &&& self.collections.wf()
    }

    /// The mapping from pipeline id to status.
    pub open spec fn pipelines_map(&self) -> Map<PipelineId, PipelineStatus> {
        self.pipelines.view()
    }

    /// The mapping from resource id to live resource.
    pub open spec fn resources_map(&self) -> Map<BindableResourceId, BindableResource> {
        self.resources.view()
    }

    /// The mapping from collection id to member texture ids.
    pub open spec fn collections_map(&self) -> Map<TextureCollectionId, Vec<TextureId>> {
        self.collections.view()
    }

    pub fn new() -> (r: BindingManager)
        ensures
            r.wf(),
            r.pipelines_map() == Map::<PipelineId, PipelineStatus>::empty(),
            r.resources_map() == Map::<BindableResourceId, BindableResource>::empty(),
            r.collections_map() == Map::<TextureCollectionId, Vec<TextureId>>::empty(),
    {
        BindingManager { pipelines: Table::new(), resources: Table::new(), collections: Table::new() }
    }

    /// Marks every pipeline whose id list contains `resource` as dirty and
    /// touches nothing else (completeness and minimality in one statement).
    pub fn mark_resource_dirty(&mut self, resource: &BindableResourceId)
        requires
            old(self).wf(),
        ensures
            final(self).wf(),
            dirty_marked(old(self).pipelines_map(), final(self).pipelines_map(), *resource),
            final(self).resources == old(self).resources,
            final(self).collections == old(self).collections,
    {
        let ghost orig = self.pipelines;
        let n = self.pipelines.len();
        let mut i: usize = 0;
        while i < n
            invariant
                self.pipelines.wf(),
                self.resources == old(self).resources,
                self.collections == old(self).collections,
                n == orig.seq().len(),
                self.pipelines.seq().len() == n,
                i <= n,
                forall|j: int| 0 <= j < n ==> self.pipelines.seq()[j].0 == orig.seq()[j].0,
                forall|j: int| i <= j < n ==> self.pipelines.seq()[j].1 == orig.seq()[j].1,
                forall|j: int| 0 <= j < i ==> {
                    &&& (#[trigger] self.pipelines.seq()[j].1).resources@ == orig.seq()[j].1.resources@
                    &&& self.pipelines.seq()[j].1.dirty == (orig.seq()[j].1.dirty
                        || orig.seq()[j].1.resources@.contains(*resource))
                },
            decreases n - i,
        {
            let needs_flag = {
                let status = self.pipelines.value_at(i);
                contains_id(&status.resources, resource) && !status.dirty
            };
            if needs_flag {
                let replacement = {
                    let status = self.pipelines.value_at(i);
                    PipelineStatus { resources: copy_ids(&status.resources), dirty: true }
                };
                self.pipelines.set_value_at(i, replacement);
            }
            i = i + 1;
        }
        proof {
            orig.lemma_entries();
            self.pipelines.lemma_entries();
            assert(self.pipelines_map().dom() =~= orig.view().dom());
            assert forall|p: PipelineId| #[trigger] orig.view().contains_key(p) implies {
                &&& self.pipelines_map()[p].resources@ == orig.view()[p].resources@
                &&& self.pipelines_map()[p].dirty == (orig.view()[p].dirty
                    || orig.view()[p].resources@.contains(*resource))
            } by {
                let j = choose|j: int| 0 <= j < orig.seq().len() && orig.seq()[j].0 == p;
                assert(self.pipelines.seq()[j].0 == p);
                assert(orig.view()[p] == orig.seq()[j].1);
                assert(self.pipelines_map()[p] == self.pipelines.seq()[j].1);
            }
        }
    }

    pub fn add_pipeline(&mut self, id: PipelineId, status: PipelineStatus)
        requires
            old(self).wf(),
        ensures
            final(self).wf(),
            final(self).pipelines_map() == old(self).pipelines_map().insert(id, status),
            final(self).resources == old(self).resources,
            final(self).collections == old(self).collections,
    {
        self.pipelines.insert(id, status);
    }

    pub fn get_pipeline(&self, id: &PipelineId) -> (r: Option<&PipelineStatus>)
        requires
            self.wf(),
        ensures
            match r {
                Some(s) => self.pipelines_map().contains_key(*id) && *s == self.pipelines_map()[*id],
                None => !self.pipelines_map().contains_key(*id),
            },
    {
        self.pipelines.get(id)
    }

    pub fn remove_pipeline(&mut self, id: &PipelineId)
        requires
            old(self).wf(),
        ensures
            final(self).wf(),
            final(self).pipelines_map() == old(self).pipelines_map().remove(*id),
            final(self).resources == old(self).resources,
            final(self).collections == old(self).collections,
    {
        self.pipelines.remove(id);
    }

    /// Inserts or overwrites; replacement deliberately does not itself mark
    /// dependants dirty, as not every replacement has the same dirtiness
    /// implications — callers invoke [`Self::mark_resource_dirty`] when it does.
    pub fn add_resource(&mut self, id: BindableResourceId, resource: BindableResource)
        requires
            old(self).wf(),
        ensures
            final(self).wf(),
            final(self).resources_map() == old(self).resources_map().insert(id, resource),
            final(self).pipelines == old(self).pipelines,
            final(self).collections == old(self).collections,
    {
        self.resources.insert(id, resource);
    }

    pub fn get_resource(&self, id: &BindableResourceId) -> (r: Option<&BindableResource>)
        requires
            self.wf(),
        ensures
            match r {
                Some(b) => self.resources_map().contains_key(*id) && *b == self.resources_map()[*id],
                None => !self.resources_map().contains_key(*id),
            },
    {
        self.resources.get(id)
    }

    pub fn remove_resource(&mut self, id: &BindableResourceId)
        requires
            old(self).wf(),
        ensures
            final(self).wf(),
            final(self).resources_map() == old(self).resources_map().remove(*id),
            final(self).pipelines == old(self).pipelines,
            final(self).collections == old(self).collections,
    {
        self.resources.remove(id);
    }

    pub fn add_collection(&mut self, id: TextureCollectionId, members: Vec<TextureId>)
        requires
            old(self).wf(),
        ensures
            final(self).wf(),
            final(self).collections_map() == old(self).collections_map().insert(id, members),
            final(self).pipelines == old(self).pipelines,
            final(self).resources == old(self).resources,
    {
        self.collections.insert(id, members);
    }

    pub fn get_collection(&self, id: &TextureCollectionId) -> (r: Option<&Vec<TextureId>>)
        requires
            self.wf(),
        ensures
            match r {
                Some(m) => self.collections_map().contains_key(*id)
                    && *m == self.collections_map()[*id],
                None => !self.collections_map().contains_key(*id),
            },
    {
        self.collections.get(id)
    }

    pub fn remove_collection(&mut self, id: &TextureCollectionId)
        requires
            old(self).wf(),
        ensures
            final(self).wf(),
            final(self).collections_map() == old(self).collections_map().remove(*id),
            final(self).pipelines == old(self).pipelines,
            final(self).resources == old(self).resources,
    {
        self.collections.remove(id);
    }
}

impl BindingManager {
    /// Whether `tid` resolves to a texture view in the table.
    pub open spec fn texture_resolvable(&self, tid: TextureId) -> bool {
        &&& self.resources_map().contains_key(BindableResourceId::Texture(tid))
        &&& self.resources_map()[BindableResourceId::Texture(tid)] is Texture
    }

    /// Whether `id` can be resolved to a binding: its entry exists and holds
    /// the variant its kind promises; a collection needs every member to
    /// resolve to a texture view. Binding an id that does not resolve is a
    /// fatal invariant violation, so resolution is a precondition of
    /// bind-group construction.
    pub open spec fn resolvable(&self, id: BindableResourceId) -> bool {
        match id {
            BindableResourceId::Buffer(_) => self.resources_map().contains_key(id)
                && self.resources_map()[id] is Buffer,
            BindableResourceId::Texture(tid) => self.texture_resolvable(tid),
            BindableResourceId::Sampler(_) => self.resources_map().contains_key(id)
                && self.resources_map()[id] is Sampler,
            BindableResourceId::AccelerationStructure(_) => self.resources_map().contains_key(id)
                && self.resources_map()[id] is AccelerationStructure,
            BindableResourceId::TextureCollection(cid) => self.collections_map().contains_key(cid)
                && forall|j: int|
                    0 <= j < self.collections_map()[cid]@.len()
                        ==> self.texture_resolvable(#[trigger] self.collections_map()[cid]@[j]),
        }
    }

    /// The view handles a collection's members resolve to, in member order.
    pub open spec fn collection_handles(&self, cid: TextureCollectionId) -> Seq<u64> {
        self.collections_map()[cid]@.map_values(
            |tid: TextureId| self.resources_map()[BindableResourceId::Texture(tid)].handle(),
        )
    }

    /// What one slot bound to `id` holds once resolved through the table.
    pub open spec fn resolves_to(&self, id: BindableResourceId, b: BoundResource) -> bool {
        match id {
            BindableResourceId::Buffer(_) => b matches BoundResource::EntireBuffer { handle }
                && handle == self.resources_map()[id].handle(),
            BindableResourceId::Texture(_) => b matches BoundResource::TextureView { handle }
                && handle == self.resources_map()[id].handle(),
            BindableResourceId::Sampler(_) => b matches BoundResource::Sampler { handle }
                && handle == self.resources_map()[id].handle(),
            BindableResourceId::AccelerationStructure(_) => b matches
                BoundResource::AccelerationStructure { handle } && handle
                == self.resources_map()[id].handle(),
            BindableResourceId::TextureCollection(cid) => b matches
                BoundResource::TextureViewArray { handles } && handles@ == self.collection_handles(
                cid,
            ),
        }
    }

    /// Whether every id in `entries` can be resolved to a binding.
    pub open spec fn all_resolvable(&self, entries: Seq<BindableResourceId>) -> bool {
        forall|i: int| 0 <= i < entries.len() ==> self.resolvable(#[trigger] entries[i])
    }

    /// Whether `bg` is exactly the bind group the current table gives for
    /// `entries`: one slot per id, positional, each resolved through the
    /// table.
    pub open spec fn bind_group_matches(
        &self,
        entries: Seq<BindableResourceId>,
        bg: BindGroup,
    ) -> bool {
        &&& bg.entries@.len() == entries.len()
        &&& forall|i: int|
            0 <= i < entries.len() ==> (#[trigger] bg.entries@[i]).binding == i && self.resolves_to(
                entries[i],
                bg.entries@[i].resource,
            )
    }

    /// Builds a bind group over `entries`: slot `i` holds exactly what
    /// `entries[i]` resolves to — binding slots are positional, with no
    /// reordering or gap-filling.
    ///
    /// See [`lemma_replace_preserves_identity`] for what a replacement does
    /// to the slots of a later build.
    pub fn create_bind_group(&self, entries: &Vec<BindableResourceId>) -> (r: BindGroup)
        requires
            self.wf(),
            forall|i: int| 0 <= i < entries@.len() ==> self.resolvable(#[trigger] entries@[i]),
            entries@.len() <= u32::MAX,
        ensures
            r.entries@.len() == entries@.len(),
            forall|i: int| 0 <= i < entries@.len() ==> (#[trigger] r.entries@[i]).binding == i,
            forall|i: int|
                0 <= i < entries@.len() ==> self.resolves_to(
                    entries@[i],
                    (#[trigger] r.entries@[i]).resource,
                ),
    {
        let mut out: Vec<BindGroupEntry> = Vec::new();
        let mut i: usize = 0;
        while i < entries.len()
            invariant
                self.wf(),
                forall|k: int| 0 <= k < entries@.len() ==> self.resolvable(#[trigger] entries@[k]),
                entries@.len() <= u32::MAX,
                i <= entries@.len(),
                out@.len() == i,
                forall|k: int| 0 <= k < i ==> (#[trigger] out@[k]).binding == k,
                forall|k: int|
                    0 <= k < i ==> self.resolves_to(entries@[k], (#[trigger] out@[k]).resource),
            decreases entries@.len() - i,
        {
            let id = entries[i];
            let resource = match id {
                BindableResourceId::TextureCollection(cid) => {
                    let members = self.get_collection(&cid).unwrap();
                    let mut handles: Vec<u64> = Vec::new();
                    let mut j: usize = 0;
                    while j < members.len()
                        invariant
                            self.wf(),
                            self.collections_map().contains_key(cid),
                            members == self.collections_map()[cid],
                            forall|l: int|
                                0 <= l < members@.len() ==> self.texture_resolvable(
                                    #[trigger] members@[l],
                                ),
                            j <= members@.len(),
                            handles@.len() == j,
                            forall|l: int|
                                0 <= l < j ==> handles@[l]
                                    == self.resources_map()[BindableResourceId::Texture(members@[l])].handle(),
                        decreases members@.len() - j,
                    {
                        let tid = members[j];
                        let view = self.get_resource(
                            &BindableResourceId::Texture(tid),
                        ).unwrap().expect_texture_view();
                        handles.push(view.handle);
                        j = j + 1;
                    }
                    proof {
                        assert(handles@ =~= self.collection_handles(cid));
                    }
                    BoundResource::TextureViewArray { handles }
                },
                _ => {
                    let resource = self.get_resource(&id).unwrap();
                    match (id, resource) {
                        (BindableResourceId::Buffer(_), BindableResource::Buffer(b)) => {
                            BoundResource::EntireBuffer { handle: b.handle }
                        },
                        (BindableResourceId::Texture(_), BindableResource::Texture(t)) => {
                            BoundResource::TextureView { handle: t.handle }
                        },
                        (BindableResourceId::Sampler(_), BindableResource::Sampler(s)) => {
                            BoundResource::Sampler { handle: s.handle }
                        },
                        (
                            BindableResourceId::AccelerationStructure(_),
                            BindableResource::AccelerationStructure(t),
                        ) => BoundResource::AccelerationStructure { handle: t.handle },
                        _ => unreached(),
                    }
                },
            };
            out.push(BindGroupEntry { binding: i as u32, resource });
            i = i + 1;
        }
        BindGroup { entries: out }
    }
}


/// Replacement preserves identity: after the buffer entry at `id` is
/// replaced (same id, new allocation), a slot bound to `id` resolves to the
/// new allocation and nothing else, while every slot bound to any other id
/// resolves exactly as before — bindings follow a replacement without being
/// rewritten, because they hold only the id.
pub proof fn lemma_replace_preserves_identity(
    before: BindingManager,
    after: BindingManager,
    id: BindableResourceId,
    entries: Seq<BindableResourceId>,
)
    requires
        id is Buffer,
        after.resources_map() == before.resources_map().insert(id, after.resources_map()[id]),
        after.collections_map() == before.collections_map(),
    ensures
        forall|i: int, b: BoundResource|
            0 <= i < entries.len() && entries[i] == id ==> (#[trigger] after.resolves_to(
                entries[i],
                b,
            ) <==> (b matches BoundResource::EntireBuffer { handle } && handle
                == after.resources_map()[id].handle())),
        forall|i: int, b: BoundResource|
            0 <= i < entries.len() && entries[i] != id ==> (#[trigger] after.resolves_to(
                entries[i],
                b,
            ) <==> before.resolves_to(entries[i], b)),
{
    assert forall|i: int, b: BoundResource|
        0 <= i < entries.len() && entries[i] != id implies (#[trigger] after.resolves_to(
        entries[i],
        b,
    ) <==> before.resolves_to(entries[i], b)) by {
        match entries[i] {
            BindableResourceId::TextureCollection(cid) => {
                assert(after.collection_handles(cid) =~= before.collection_handles(cid));
            },
            _ => {},
        }
    }
}

} // verus!
