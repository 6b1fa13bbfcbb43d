//! Render pipelines: positional binding, lazy bind-group rebuild, draws.
//!
//! A render pass collects indexed draws against a color and a depth target
//! and is submitted as one command. Quad draws fall back to a shared pair of
//! default buffers holding a full-screen quad; like every draw they first
//! bring the pipeline's bind group up to date, so no draw runs against a
//! stale bind group.

use vstd::prelude::*;

use crate::buffer::{buffer_entry, has_buffer};
use crate::codec::{encode_u32s, u32s_le};
use crate::dispatch::{Command, DrawCall};
use crate::gpu::{id_in_range, DefaultBuffers, Gpu};
use crate::ids::PipelineId;
use crate::index::IndexBuffer;
use crate::manager::{copy_ids, pipeline_cleaned, pipeline_registered, BindGroup, PipelineStatus};
use crate::resource::{
    Bindable, BindableResourceId, BindGroupLayoutEntry, BufferUsage, ShaderVisibility,
};
use crate::texture::{has_texture, texture_entry, Depth, Rgba8, Texture};
use crate::vertex::VertexBuffer;

verus! {

/// The formats a vertex attribute can take.
#[derive(Clone, Copy, PartialEq, Eq, Debug, Structural)]
pub enum VertexFormat {
    Float32x2,
    Float32x3,
    Float32x4,
}

/// One attribute within a vertex record.
#[derive(Clone, Copy, PartialEq, Eq, Debug, Structural)]
pub struct VertexAttribute {
    pub format: VertexFormat,
    pub offset: u64,
    pub shader_location: u32,
}

/// The layout of one vertex stream: record stride, whether it advances per
/// instance, and the attributes within a record.
pub struct VertexBufferLayout {
    pub array_stride: u64,
    pub step_instance: bool,
    pub attributes: Vec<VertexAttribute>,
}

/// How vertices are assembled into primitives.
#[derive(Clone, Copy, PartialEq, Eq, Debug, Structural)]
pub enum PrimitiveTopology {
    PointList,
    LineList,
    LineStrip,
    TriangleList,
    TriangleStrip,
}

/// The depth test applied before a fragment is written.
#[derive(Clone, Copy, PartialEq, Eq, Debug, Structural)]
pub enum CompareFunction {
    Never,
    Less,
    Equal,
    LessEqual,
    Greater,
    NotEqual,
    GreaterEqual,
    Always,
}

/// The default vertex layout: a four-float position and a two-float texture
/// coordinate, padded to a 32-byte stride by the shading-language alignment
/// rules for a 16-byte-aligned field.
pub fn default_vertex_layout() -> (r: VertexBufferLayout)
    ensures
        r.array_stride == 32,
        !r.step_instance,
        r.attributes@ == seq![
            VertexAttribute { format: VertexFormat::Float32x4, offset: 0, shader_location: 0 },
            VertexAttribute { format: VertexFormat::Float32x2, offset: 16, shader_location: 1 },
        ],
{
    let mut attributes: Vec<VertexAttribute> = Vec::new();
    attributes.push(
        VertexAttribute { format: VertexFormat::Float32x4, offset: 0, shader_location: 0 },
    );
    attributes.push(
        VertexAttribute { format: VertexFormat::Float32x2, offset: 16, shader_location: 1 },
    );
    proof {
        assert(attributes@ =~= seq![
            VertexAttribute { format: VertexFormat::Float32x4, offset: 0, shader_location: 0 },
            VertexAttribute { format: VertexFormat::Float32x2, offset: 16, shader_location: 1 },
        ]);
    }
    VertexBufferLayout { array_stride: 32, step_instance: false, attributes }
}

/// The index list of a full-screen quad: two triangles over four corners.
pub open spec fn quad_index_words() -> Seq<u32> {
    seq![0u32, 1u32, 2u32, 2u32, 3u32, 0u32]
}

/// The quad's vertex records as 32-bit words: for each corner a position
/// (x, y, 0, 1) and a texture coordinate, padded to the 32-byte stride. The
/// word values are the bit patterns of 0.0, 1.0 and -1.0 in binary32.
pub open spec fn quad_vertex_words() -> Seq<u32> {
    let one: u32 = 0x3F800000;
    let minus_one: u32 = 0xBF800000;
    seq![
        minus_one, minus_one, 0u32, one, 0u32, 0u32, 0u32, 0u32,
        one, minus_one, 0u32, one, one, 0u32, 0u32, 0u32,
        one, one, 0u32, one, one, one, 0u32, 0u32,
        minus_one, one, 0u32, one, 0u32, one, 0u32, 0u32,
    ]
}

fn quad_indices() -> (r: Vec<u32>)
    ensures
        r@ == quad_index_words(),
{
    let mut r: Vec<u32> = Vec::new();
    r.push(0);
    r.push(1);
    r.push(2);
    r.push(2);
    r.push(3);
    r.push(0);
    proof {
        assert(r@ =~= quad_index_words());
    }
    r
}

fn quad_vertices() -> (r: Vec<u32>)
    ensures
        r@ == quad_vertex_words(),
{
    let one: u32 = 0x3F800000;
    let minus_one: u32 = 0xBF800000;
    let mut r: Vec<u32> = Vec::new();
    r.push(minus_one);
    r.push(minus_one);
    r.push(0);
    r.push(one);
    r.push(0);
    r.push(0);
    r.push(0);
    r.push(0);
    r.push(one);
    r.push(minus_one);
    r.push(0);
    r.push(one);
    r.push(one);
    r.push(0);
    r.push(0);
    r.push(0);
    r.push(one);
    r.push(one);
    r.push(0);
    r.push(one);
    r.push(one);
    r.push(one);
    r.push(0);
    r.push(0);
    r.push(minus_one);
    r.push(one);
    r.push(0);
    r.push(one);
    r.push(0);
    r.push(one);
    r.push(0);
    r.push(0);
    proof {
        assert(r@ =~= quad_vertex_words());
    }
    r
}

/// The default quad buffers exist and still resolve in the table.
pub open spec fn default_buffers_ok(gpu: Gpu) -> bool {
    &&& gpu.default_buffers is Some
    &&& has_buffer(gpu, gpu.default_buffers->0.vertex)
    &&& has_buffer(gpu, gpu.default_buffers->0.index)
}

impl Gpu {
    /// The shared quad buffers, created on first use: a vertex buffer with
    /// the four quad corners and an index buffer with its two triangles.
    pub fn default_buffers(&mut self) -> (r: DefaultBuffers)
        requires
            old(self).wf(),
            old(self).default_buffers is Some ==> default_buffers_ok(*old(self)),
            old(self).alloc.buffers.next < u64::MAX - 1,
            old(self).device_handles.next < u64::MAX - 1,
        ensures
            final(self).wf(),
            final(self).default_buffers == Some(r),
            default_buffers_ok(*final(self)),
            old(self).default_buffers is Some ==> *final(self) == *old(self) && Some(r) == old(
                self,
            ).default_buffers,
            old(self).default_buffers is None ==> {
                &&& buffer_entry(*final(self), r.vertex).contents@ == u32s_le(quad_vertex_words())
                &&& buffer_entry(*final(self), r.vertex).usage == BufferUsage::Vertex
                &&& buffer_entry(*final(self), r.index).contents@ == u32s_le(quad_index_words())
                &&& buffer_entry(*final(self), r.index).usage == BufferUsage::Index
                &&& final(self).binding_manager.pipelines == old(self).binding_manager.pipelines
                &&& final(self).binding_manager.collections_map() == old(
                    self,
                ).binding_manager.collections_map()
                &&& final(self).dispatch_queue == old(self).dispatch_queue
            },
    {
        match self.default_buffers {
            Some(defaults) => defaults,
            None => {
                let vertex_words = quad_vertices();
                let vertex_bytes = encode_u32s(&vertex_words);
                let vertex = self.create_vertex(&vertex_bytes);
                let index_words = quad_indices();
                let index = self.create_index(&index_words);
                let defaults = DefaultBuffers { vertex: vertex.buffer, index: index.buffer };
                self.default_buffers = Some(defaults);
                proof {
                    assert(defaults.vertex.0 != defaults.index.0);
                    assert(BindableResourceId::Buffer(defaults.vertex)
                        != BindableResourceId::Buffer(defaults.index));
                    assert(has_buffer(*self, defaults.vertex));
                    assert(has_buffer(*self, defaults.index));
                    assert(buffer_entry(*self, defaults.vertex).contents@ == u32s_le(
                        quad_vertex_words(),
                    ));
                    assert(buffer_entry(*self, defaults.index).contents@ == u32s_le(
                        quad_index_words(),
                    ));
                }
                defaults
            },
        }
    }
}

/// A render pipeline, its bound ids in slot order, and the bind group built
/// over them.
pub struct RenderPipeline {
    pub id: PipelineId,
    pub pipeline: u64,
    pub entries: Vec<BindableResourceId>,
    pub bind_group: BindGroup,
}

/// Collects bindings and fixed-function state before the pipeline is built.
pub struct RenderPipelineBuilder {
    pub module: u64,
    pub vertex_layout: VertexBufferLayout,
    pub instance_layout: Option<VertexBufferLayout>,
    pub bind_group_layout: Vec<BindGroupLayoutEntry>,
    pub bind_group: Vec<BindableResourceId>,
    pub topology: PrimitiveTopology,
    pub depth_compare: CompareFunction,
}

/// An open render pass: its targets and the draws recorded so far, in order.
pub struct RenderPass {
    pub color: u64,
    pub depth: u64,
    pub draws: Vec<DrawCall>,
}

impl RenderPipelineBuilder {
    /// One layout slot per bound id, in the same positional order.
    pub open spec fn wf(&self) -> bool {
        &&& self.bind_group_layout@.len() == self.bind_group@.len()
        &&& forall|i: int|
            0 <= i < self.bind_group_layout@.len()
                ==> (#[trigger] self.bind_group_layout@[i]).binding == i
    }

    /// Adds `entry` as the next binding, visible to the given stages: the
    /// Nth bind call occupies binding slot N.
    pub fn bind<B: Bindable>(self, entry: &B, visibility: ShaderVisibility) -> (r:
        RenderPipelineBuilder)
        requires
            self.wf(),
            self.bind_group@.len() < u32::MAX,
        ensures
            r.wf(),
            r.module == self.module,
            r.bind_group@ == self.bind_group@.push(entry.id_spec()),
            r.bind_group_layout@ == self.bind_group_layout@.push(
                BindGroupLayoutEntry {
                    binding: self.bind_group@.len() as u32,
                    visibility,
                    ty: entry.binding_type_spec(),
                    count: entry.count_spec(),
                },
            ),
            r.vertex_layout == self.vertex_layout,
            r.instance_layout == self.instance_layout,
            r.topology == self.topology,
            r.depth_compare == self.depth_compare,
    {
        let mut builder = self;
        let binding = builder.bind_group_layout.len() as u32;
        builder.bind_group.push(entry.resource_id());
        builder.bind_group_layout.push(
            BindGroupLayoutEntry {
                binding,
                visibility,
                ty: entry.binding_type(),
                count: entry.count(),
            },
        );
        builder
    }

    /// Replaces the vertex-stream layout.
    pub fn vertex_layout(self, layout: VertexBufferLayout) -> (r: RenderPipelineBuilder)
        ensures
            r == (RenderPipelineBuilder { vertex_layout: layout, ..self }),
    {
        RenderPipelineBuilder { vertex_layout: layout, ..self }
    }

    /// Adds a second, per-instance vertex stream.
    pub fn instance_layout(self, layout: VertexBufferLayout) -> (r: RenderPipelineBuilder)
        ensures
            r == (RenderPipelineBuilder { instance_layout: Some(layout), ..self }),
    {
        RenderPipelineBuilder { instance_layout: Some(layout), ..self }
    }

    /// Replaces the depth test.
    pub fn depth_compare(self, compare: CompareFunction) -> (r: RenderPipelineBuilder)
        ensures
            r == (RenderPipelineBuilder { depth_compare: compare, ..self }),
    {
        RenderPipelineBuilder { depth_compare: compare, ..self }
    }

    /// Replaces the primitive topology.
    pub fn topology(self, topology: PrimitiveTopology) -> (r: RenderPipelineBuilder)
        ensures
            r == (RenderPipelineBuilder { topology, ..self }),
    {
        RenderPipelineBuilder { topology, ..self }
    }

    /// Builds the pipeline: registers it with a clean dirty flag and builds
    /// its bind group positionally from the current table.
    pub fn finish(self, gpu: &mut Gpu) -> (r: RenderPipeline)
        requires
            old(gpu).wf(),
            self.wf(),
            old(gpu).binding_manager.all_resolvable(self.bind_group@),
            self.bind_group@.len() <= u32::MAX,
            old(gpu).alloc.pipelines.next < u64::MAX,
            old(gpu).device_handles.next < u64::MAX,
        ensures
            final(gpu).wf(),
            r.id.0 == old(gpu).alloc.pipelines.next,
            r.pipeline == old(gpu).device_handles.next,
            r.entries@ == self.bind_group@,
            pipeline_registered(
                old(gpu).binding_manager.pipelines_map(),
                final(gpu).binding_manager.pipelines_map(),
                r.id,
                self.bind_group@,
            ),
            final(gpu).binding_manager.resources == old(gpu).binding_manager.resources,
            final(gpu).binding_manager.collections == old(gpu).binding_manager.collections,
            final(gpu).alloc.pipelines.next == old(gpu).alloc.pipelines.next + 1,
            final(gpu).alloc.buffers == old(gpu).alloc.buffers,
            final(gpu).alloc.textures == old(gpu).alloc.textures,
            final(gpu).alloc.samplers == old(gpu).alloc.samplers,
            final(gpu).alloc.acceleration_structures == old(gpu).alloc.acceleration_structures,
            final(gpu).alloc.collections == old(gpu).alloc.collections,
            final(gpu).device_handles.next == old(gpu).device_handles.next + 1,
            final(gpu).dispatch_queue == old(gpu).dispatch_queue,
            final(gpu).features == old(gpu).features,
            final(gpu).default_buffers == old(gpu).default_buffers,
            final(gpu).binding_manager.bind_group_matches(r.entries@, r.bind_group),
            r.synced(*final(gpu)),
    {
        let bind_group = gpu.binding_manager.create_bind_group(&self.bind_group);
        let pipeline = gpu.device_handles.fresh();
        let id = gpu.alloc.next_pipeline();
        proof {
            if gpu.binding_manager.pipelines_map().contains_key(id) {
                assert(id.0 < old(gpu).alloc.pipelines.next);
            }
        }
        let status = PipelineStatus { resources: copy_ids(&self.bind_group), dirty: false };
        gpu.binding_manager.add_pipeline(id, status);
        proof {
            assert(gpu.binding_manager.pipelines_map().dom() =~= old(
                gpu,
            ).binding_manager.pipelines_map().dom().insert(id));
            assert forall|p: PipelineId|
                #[trigger] gpu.binding_manager.pipelines_map().contains_key(p) implies p.0
                < gpu.alloc.pipelines.next by {
                if p != id {
                    assert(old(gpu).binding_manager.pipelines_map().contains_key(p));
                }
            }
            assert forall|rid: BindableResourceId|
                #[trigger] gpu.binding_manager.resources_map().contains_key(rid) implies
                id_in_range(gpu.alloc, rid) && gpu.binding_manager.resources_map()[rid].handle()
                < gpu.device_handles.next by {
                assert(old(gpu).binding_manager.resources_map().contains_key(rid));
            }
            assert forall|c: crate::ids::TextureCollectionId|
                #[trigger] gpu.binding_manager.collections_map().contains_key(c) implies c.0
                < gpu.alloc.collections.next by {
                assert(old(gpu).binding_manager.collections_map().contains_key(c));
            }
        }
        RenderPipeline { id, pipeline, entries: self.bind_group, bind_group }
    }
}

impl Gpu {
    /// Starts a render pipeline builder with the default quad vertex layout,
    /// triangle-list topology and a less-or-equal depth test; the shader
    /// module is an opaque compiled object named by a fresh handle.
    pub fn render_pipeline(&mut self) -> (r: RenderPipelineBuilder)
        requires
            old(self).wf(),
            old(self).device_handles.next < u64::MAX,
        ensures
            final(self).wf(),
            r.wf(),
            r.module == old(self).device_handles.next,
            r.bind_group@.len() == 0,
            r.bind_group_layout@.len() == 0,
            r.instance_layout is None,
            r.topology == PrimitiveTopology::TriangleList,
            r.depth_compare == CompareFunction::LessEqual,
            final(self).device_handles.next == old(self).device_handles.next + 1,
            final(self).alloc == old(self).alloc,
            final(self).binding_manager == old(self).binding_manager,
            final(self).dispatch_queue == old(self).dispatch_queue,
            final(self).features == old(self).features,
            final(self).default_buffers == old(self).default_buffers,
    {
        let module = self.device_handles.fresh();
        proof {
            assert forall|rid: BindableResourceId|
                #[trigger] self.binding_manager.resources_map().contains_key(rid) implies
                id_in_range(self.alloc, rid) && self.binding_manager.resources_map()[rid].handle()
                < self.device_handles.next by {
                assert(old(self).binding_manager.resources_map().contains_key(rid));
            }
        }
        RenderPipelineBuilder {
            module,
            vertex_layout: default_vertex_layout(),
            instance_layout: None,
            bind_group_layout: Vec::new(),
            bind_group: Vec::new(),
            topology: PrimitiveTopology::TriangleList,
            depth_compare: CompareFunction::LessEqual,
        }
    }

    /// Opens a render pass over a color and a depth target.
    pub fn begin_render_pass(&self, color: &Texture<Rgba8>, depth: &Texture<Depth>) -> (r:
        RenderPass)
        requires
            self.wf(),
            has_texture(*self, color.id),
            has_texture(*self, depth.id),
        ensures
            r.color == texture_entry(*self, color.id).handle,
            r.depth == texture_entry(*self, depth.id).handle,
            r.draws@.len() == 0,
    {
        let color_handle = {
            let view = self.binding_manager.get_resource(
                &BindableResourceId::Texture(color.id),
            ).unwrap().expect_texture_view();
            view.handle
        };
        let depth_handle = {
            let view = self.binding_manager.get_resource(
                &BindableResourceId::Texture(depth.id),
            ).unwrap().expect_texture_view();
            view.handle
        };
        RenderPass { color: color_handle, depth: depth_handle, draws: Vec::new() }
    }

    /// Closes the pass and submits it, with everything already pending, as
    /// one batch.
    pub fn submit_render_pass(&mut self, render_pass: RenderPass)
        ensures
            final(self).dispatch_queue.pending@.len() == 0,
            final(self).dispatch_queue.submitted@ == old(self).dispatch_queue.submitted@ + old(
                self,
            ).dispatch_queue.pending@.push(
                Command::RenderPass {
                    color: render_pass.color,
                    depth: render_pass.depth,
                    draws: render_pass.draws,
                },
            ),
            final(self).alloc == old(self).alloc,
            final(self).binding_manager == old(self).binding_manager,
            final(self).device_handles == old(self).device_handles,
            final(self).features == old(self).features,
            final(self).default_buffers == old(self).default_buffers,
    {
        self.dispatch(
            Command::RenderPass {
                color: render_pass.color,
                depth: render_pass.depth,
                draws: render_pass.draws,
            },
            true,
        );
    }
}

impl RenderPipeline {
    /// The wrapper agrees with the registry, and a clean dirty flag really
    /// does mean the bind group reflects the current table.
    pub open spec fn synced(&self, gpu: Gpu) -> bool {
        &&& gpu.binding_manager.pipelines_map().contains_key(self.id)
        &&& gpu.binding_manager.pipelines_map()[self.id].resources@ == self.entries@
        &&& (!gpu.binding_manager.pipelines_map()[self.id].dirty
            && gpu.binding_manager.all_resolvable(self.entries@))
            ==> gpu.binding_manager.bind_group_matches(self.entries@, self.bind_group)
    }

    /// Rebuilds the bind group from the current table if the pipeline was
    /// marked dirty, clearing the flag.
    fn recreate_bind_group(&mut self, gpu: &mut Gpu)
        requires
            old(gpu).wf(),
            old(self).synced(*old(gpu)),
            old(gpu).binding_manager.all_resolvable(old(self).entries@),
            old(self).entries@.len() <= u32::MAX,
        ensures
            final(gpu).wf(),
            final(self).id == old(self).id,
            final(self).pipeline == old(self).pipeline,
            final(self).entries@ == old(self).entries@,
            pipeline_cleaned(
                old(gpu).binding_manager.pipelines_map(),
                final(gpu).binding_manager.pipelines_map(),
                old(self).id,
            ),
            final(gpu).binding_manager.resources == old(gpu).binding_manager.resources,
            final(gpu).binding_manager.collections == old(gpu).binding_manager.collections,
            final(gpu).alloc == old(gpu).alloc,
            final(gpu).device_handles == old(gpu).device_handles,
            final(gpu).dispatch_queue == old(gpu).dispatch_queue,
            final(gpu).features == old(gpu).features,
            final(gpu).default_buffers == old(gpu).default_buffers,
            final(gpu).binding_manager.bind_group_matches(
                final(self).entries@,
                final(self).bind_group,
            ),
            final(self).synced(*final(gpu)),
    {
        let dirty = gpu.binding_manager.get_pipeline(&self.id).unwrap().dirty;
        if dirty {
            self.bind_group = gpu.binding_manager.create_bind_group(&self.entries);
            let status = PipelineStatus { resources: copy_ids(&self.entries), dirty: false };
            gpu.binding_manager.add_pipeline(self.id, status);
            proof {
                assert(gpu.binding_manager.pipelines_map().dom() =~= old(
                    gpu,
                ).binding_manager.pipelines_map().dom());
                assert forall|p: PipelineId|
                    #[trigger] gpu.binding_manager.pipelines_map().contains_key(p) implies p.0
                    < gpu.alloc.pipelines.next by {
                    assert(old(gpu).binding_manager.pipelines_map().contains_key(p));
                }
                assert forall|rid: BindableResourceId|
                    #[trigger] gpu.binding_manager.resources_map().contains_key(rid) implies
                    id_in_range(gpu.alloc, rid) && gpu.binding_manager.resources_map()[
                    rid].handle() < gpu.device_handles.next by {
                    assert(old(gpu).binding_manager.resources_map().contains_key(rid));
                }
                assert forall|c: crate::ids::TextureCollectionId|
                    #[trigger] gpu.binding_manager.collections_map().contains_key(c) implies c.0
                    < gpu.alloc.collections.next by {
                    assert(old(gpu).binding_manager.collections_map().contains_key(c));
                }
            }
        }
    }

    /// Records an indexed draw over the given buffers into the pass; the
    /// bind group is brought up to date first.
    pub fn draw(
        &mut self,
        gpu: &mut Gpu,
        render_pass: &mut RenderPass,
        index: &IndexBuffer,
        vertex: &VertexBuffer,
        start: u32,
        end: u32,
    )
        requires
            old(gpu).wf(),
            old(self).synced(*old(gpu)),
            old(gpu).binding_manager.all_resolvable(old(self).entries@),
            old(self).entries@.len() <= u32::MAX,
            has_buffer(*old(gpu), index.id()),
            has_buffer(*old(gpu), vertex.id()),
            start <= end,
        ensures
            final(gpu).wf(),
            final(self).id == old(self).id,
            final(self).entries@ == old(self).entries@,
            pipeline_cleaned(
                old(gpu).binding_manager.pipelines_map(),
                final(gpu).binding_manager.pipelines_map(),
                old(self).id,
            ),
            final(gpu).binding_manager.resources == old(gpu).binding_manager.resources,
            final(gpu).binding_manager.collections == old(gpu).binding_manager.collections,
            final(gpu).alloc == old(gpu).alloc,
            final(gpu).device_handles == old(gpu).device_handles,
            final(gpu).dispatch_queue == old(gpu).dispatch_queue,
            final(gpu).binding_manager.bind_group_matches(
                final(self).entries@,
                final(self).bind_group,
            ),
            final(self).synced(*final(gpu)),
            final(render_pass).color == old(render_pass).color,
            final(render_pass).depth == old(render_pass).depth,
            final(render_pass).draws@ == old(render_pass).draws@.push(
                DrawCall {
                    pipeline: old(self).pipeline,
                    index_buffer: buffer_entry(*old(gpu), index.id()).handle,
                    vertex_buffer: buffer_entry(*old(gpu), vertex.id()).handle,
                    instance_buffer: None,
                    first_index: start,
                    index_count: (end - start) as u32,
                    first_instance: 0,
                    instance_count: 1,
                },
            ),
    {
        self.recreate_bind_group(gpu);
        let index_handle = {
            let entry = gpu.binding_manager.get_resource(
                &BindableResourceId::Buffer(index.buffer),
            ).unwrap().expect_buffer();
            entry.handle
        };
        let vertex_handle = {
            let entry = gpu.binding_manager.get_resource(
                &BindableResourceId::Buffer(vertex.buffer),
            ).unwrap().expect_buffer();
            entry.handle
        };
        render_pass.draws.push(
            DrawCall {
                pipeline: self.pipeline,
                index_buffer: index_handle,
                vertex_buffer: vertex_handle,
                instance_buffer: None,
                first_index: start,
                index_count: end - start,
                first_instance: 0,
                instance_count: 1,
            },
        );
    }

    /// Records a full-screen quad draw over the default buffers for the
    /// given instance range; the bind group is brought up to date first.
    pub fn draw_quad(
        &mut self,
        gpu: &mut Gpu,
        render_pass: &mut RenderPass,
        first_instance: u32,
        instance_end: u32,
    )
        requires
            old(gpu).wf(),
            old(self).synced(*old(gpu)),
            old(gpu).binding_manager.all_resolvable(old(self).entries@),
            old(self).entries@.len() <= u32::MAX,
            default_buffers_ok(*old(gpu)),
            first_instance <= instance_end,
        ensures
            final(gpu).wf(),
            final(self).id == old(self).id,
            final(self).entries@ == old(self).entries@,
            pipeline_cleaned(
                old(gpu).binding_manager.pipelines_map(),
                final(gpu).binding_manager.pipelines_map(),
                old(self).id,
            ),
            final(gpu).binding_manager.resources == old(gpu).binding_manager.resources,
            final(gpu).binding_manager.collections == old(gpu).binding_manager.collections,
            final(gpu).alloc == old(gpu).alloc,
            final(gpu).device_handles == old(gpu).device_handles,
            final(gpu).dispatch_queue == old(gpu).dispatch_queue,
            final(gpu).binding_manager.bind_group_matches(
                final(self).entries@,
                final(self).bind_group,
            ),
            final(self).synced(*final(gpu)),
            final(render_pass).color == old(render_pass).color,
            final(render_pass).depth == old(render_pass).depth,
            final(render_pass).draws@ == old(render_pass).draws@.push(
                DrawCall {
                    pipeline: old(self).pipeline,
                    index_buffer: buffer_entry(
                        *old(gpu),
                        old(gpu).default_buffers->0.index,
                    ).handle,
                    vertex_buffer: buffer_entry(
                        *old(gpu),
                        old(gpu).default_buffers->0.vertex,
                    ).handle,
                    instance_buffer: None,
                    first_index: 0,
                    index_count: 6,
                    first_instance,
                    instance_count: (instance_end - first_instance) as u32,
                },
            ),
    {
        self.recreate_bind_group(gpu);
        let defaults = match gpu.default_buffers {
            Some(defaults) => defaults,
            None => unreached(),
        };
        let index_handle = {
            let entry = gpu.binding_manager.get_resource(
                &BindableResourceId::Buffer(defaults.index),
            ).unwrap().expect_buffer();
            entry.handle
        };
        let vertex_handle = {
            let entry = gpu.binding_manager.get_resource(
                &BindableResourceId::Buffer(defaults.vertex),
            ).unwrap().expect_buffer();
            entry.handle
        };
        render_pass.draws.push(
            DrawCall {
                pipeline: self.pipeline,
                index_buffer: index_handle,
                vertex_buffer: vertex_handle,
                instance_buffer: None,
                first_index: 0,
                index_count: 6,
                first_instance,
                instance_count: instance_end - first_instance,
            },
        );
    }

    /// Records a quad draw fed by a per-instance vertex stream; the bind
    /// group is brought up to date first.
    pub fn instance_quad(
        &mut self,
        gpu: &mut Gpu,
        render_pass: &mut RenderPass,
        instances: &VertexBuffer,
        first_instance: u32,
        instance_end: u32,
    )
        requires
            old(gpu).wf(),
            old(self).synced(*old(gpu)),
            old(gpu).binding_manager.all_resolvable(old(self).entries@),
            old(self).entries@.len() <= u32::MAX,
            default_buffers_ok(*old(gpu)),
            has_buffer(*old(gpu), instances.id()),
            first_instance <= instance_end,
        ensures
            final(gpu).wf(),
            final(self).id == old(self).id,
            final(self).entries@ == old(self).entries@,
            pipeline_cleaned(
                old(gpu).binding_manager.pipelines_map(),
                final(gpu).binding_manager.pipelines_map(),
                old(self).id,
            ),
            final(gpu).binding_manager.resources == old(gpu).binding_manager.resources,
            final(gpu).binding_manager.collections == old(gpu).binding_manager.collections,
            final(gpu).alloc == old(gpu).alloc,
            final(gpu).device_handles == old(gpu).device_handles,
            final(gpu).dispatch_queue == old(gpu).dispatch_queue,
            final(gpu).binding_manager.bind_group_matches(
                final(self).entries@,
                final(self).bind_group,
            ),
            final(self).synced(*final(gpu)),
            final(render_pass).color == old(render_pass).color,
            final(render_pass).depth == old(render_pass).depth,
            final(render_pass).draws@ == old(render_pass).draws@.push(
                DrawCall {
                    pipeline: old(self).pipeline,
                    index_buffer: buffer_entry(
                        *old(gpu),
                        old(gpu).default_buffers->0.index,
                    ).handle,
                    vertex_buffer: buffer_entry(
                        *old(gpu),
                        old(gpu).default_buffers->0.vertex,
                    ).handle,
                    instance_buffer: Some(buffer_entry(*old(gpu), instances.id()).handle),
                    first_index: 0,
                    index_count: 6,
                    first_instance,
                    instance_count: (instance_end - first_instance) as u32,
                },
            ),
    {
        self.recreate_bind_group(gpu);
        let defaults = match gpu.default_buffers {
            Some(defaults) => defaults,
            None => unreached(),
        };
        let index_handle = {
            let entry = gpu.binding_manager.get_resource(
                &BindableResourceId::Buffer(defaults.index),
            ).unwrap().expect_buffer();
            entry.handle
        };
        let vertex_handle = {
            let entry = gpu.binding_manager.get_resource(
                &BindableResourceId::Buffer(defaults.vertex),
            ).unwrap().expect_buffer();
            entry.handle
        };
        let instance_handle = {
            let entry = gpu.binding_manager.get_resource(
                &BindableResourceId::Buffer(instances.buffer),
            ).unwrap().expect_buffer();
            entry.handle
        };
        render_pass.draws.push(
            DrawCall {
                pipeline: self.pipeline,
                index_buffer: index_handle,
                vertex_buffer: vertex_handle,
                instance_buffer: Some(instance_handle),
                first_index: 0,
                index_count: 6,
                first_instance,
                instance_count: instance_end - first_instance,
            },
        );
    }

    /// Removes the pipeline's registry entry.
    pub fn destroy(self, gpu: &mut Gpu)
        requires
            old(gpu).wf(),
        ensures
            final(gpu).wf(),
            final(gpu).binding_manager.pipelines_map() == old(
                gpu,
            ).binding_manager.pipelines_map().remove(self.id),
            final(gpu).binding_manager.resources == old(gpu).binding_manager.resources,
            final(gpu).binding_manager.collections == old(gpu).binding_manager.collections,
            final(gpu).alloc == old(gpu).alloc,
            final(gpu).device_handles == old(gpu).device_handles,
            final(gpu).dispatch_queue == old(gpu).dispatch_queue,
    {
        gpu.binding_manager.remove_pipeline(&self.id);
        proof {
            assert forall|p: PipelineId|
                #[trigger] gpu.binding_manager.pipelines_map().contains_key(p) implies p.0
                < gpu.alloc.pipelines.next by {
                assert(old(gpu).binding_manager.pipelines_map().contains_key(p));
            }
            assert forall|rid: BindableResourceId|
                #[trigger] gpu.binding_manager.resources_map().contains_key(rid) implies
                id_in_range(gpu.alloc, rid) && gpu.binding_manager.resources_map()[rid].handle()
                < gpu.device_handles.next by {
                assert(old(gpu).binding_manager.resources_map().contains_key(rid));
            }
            assert forall|c: crate::ids::TextureCollectionId|
                #[trigger] gpu.binding_manager.collections_map().contains_key(c) implies c.0
                < gpu.alloc.collections.next by {
                assert(old(gpu).binding_manager.collections_map().contains_key(c));
            }
        }
    }
}

} // verus!
