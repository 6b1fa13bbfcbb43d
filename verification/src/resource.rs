//! The resources a pipeline can bind, and the table entries that hold them.
//!
//! A table entry models the live device resource: an opaque `handle` names one
//! device-side allocation (the driver keys its real objects by it), and the
//! fields beside it carry what the binding logic reads. A buffer entry also
//! carries its contents, which stand for the device memory the queue writes;
//! the byte sequence is the reference the transfer contracts are stated over.

use vstd::prelude::*;

use crate::ids::{
    AccelerationStructureId, BufferId, PipelineId, SamplerId, TextureCollectionId, TextureId,
};
use crate::table::TableKey;

verus! {

/// The id that maps to a [`BindableResource`] through the binding manager.
#[derive(Clone, Copy, PartialEq, Eq, Hash, Debug, Structural)]
pub enum BindableResourceId {
    Buffer(BufferId),
    Texture(TextureId),
    Sampler(SamplerId),
    AccelerationStructure(AccelerationStructureId),
    TextureCollection(TextureCollectionId),
}

impl TableKey for BindableResourceId {
    fn key_eq(&self, other: &Self) -> (r: bool) {
        *self == *other
    }
}

impl TableKey for PipelineId {
    fn key_eq(&self, other: &Self) -> (r: bool) {
        *self == *other
    }
}

impl TableKey for TextureCollectionId {
    fn key_eq(&self, other: &Self) -> (r: bool) {
        *self == *other
    }
}

/// How a binding slot is declared to the shader.
#[derive(Clone, Copy, PartialEq, Eq, Debug, Structural)]
pub enum BindingType {
    StorageBuffer { read_only: bool },
    UniformBuffer,
    Texture { three_dimensional: bool },
    Sampler,
    AccelerationStructure,
}

/// Which shader stages see a binding.
#[derive(Clone, Copy, PartialEq, Eq, Debug, Structural)]
pub enum ShaderVisibility {
    Compute,
    Vertex,
    Fragment,
    VertexFragment,
}

/// One slot of a bind-group layout: what kind of resource the slot takes and
/// which stages see it. Slot indices are positional, fixed at pipeline-build
/// time.
#[derive(Clone, Copy, Debug)]
pub struct BindGroupLayoutEntry {
    pub binding: u32,
    pub visibility: ShaderVisibility,
    pub ty: BindingType,
    pub count: Option<u32>,
}

/// A resource that can be bound to a pipeline: it knows its id, how its slot
/// is declared, and — for array slots — how many entries the slot holds.
pub trait Bindable {
    spec fn id_spec(&self) -> BindableResourceId;

    spec fn binding_type_spec(&self) -> BindingType;

    spec fn count_spec(&self) -> Option<u32>;

    fn resource_id(&self) -> (r: BindableResourceId)
        ensures
            r == self.id_spec(),
    ;

    fn binding_type(&self) -> (r: BindingType)
        ensures
            r == self.binding_type_spec(),
    ;

    fn count(&self) -> (r: Option<u32>)
        ensures
            r == self.count_spec(),
    ;
}

/// How the device may use a buffer; fixed by the constructor and never
/// altered afterwards.
#[derive(Clone, Copy, PartialEq, Eq, Debug, Structural)]
pub enum BufferUsage {
    Storage,
    Uniform,
    Vertex,
    Index,
    BlasInput,
}

/// One live device buffer allocation.
///
/// `contents` models the allocation's memory byte for byte, so its length is
/// the buffer's capacity.
pub struct DeviceBuffer {
    pub handle: u64,
    pub usage: BufferUsage,
    pub contents: Vec<u8>,
}

impl DeviceBuffer {
    /// The allocation's size in bytes.
    pub open spec fn size(&self) -> nat {
        self.contents@.len()
    }
}

/// One live texture and the view onto it.
///
/// `contents` models the image memory, four bytes per texel, so its length is
/// `4 * width * height` per layer.
pub struct TextureViewState {
    pub handle: u64,
    pub width: u32,
    pub height: u32,
    pub contents: Vec<u8>,
}

/// The filtering a sampler applies.
#[derive(Clone, Copy, PartialEq, Eq, Debug, Structural)]
pub enum FilterMode {
    Nearest,
    Linear,
}

/// One live sampler.
pub struct SamplerState {
    pub handle: u64,
    pub filter: FilterMode,
}

/// One live top-level acceleration structure package.
pub struct TlasState {
    pub handle: u64,
    pub instances: u32,
}

/// Any resource that can be bound to a pipeline.
pub enum BindableResource {
    Buffer(DeviceBuffer),
    Texture(TextureViewState),
    Sampler(SamplerState),
    AccelerationStructure(TlasState),
}

impl BindableResource {
    /// The device allocation this entry names.
    pub open spec fn handle(&self) -> u64 {
        match self {
            BindableResource::Buffer(b) => b.handle,
            BindableResource::Texture(t) => t.handle,
            BindableResource::Sampler(s) => s.handle,
            BindableResource::AccelerationStructure(t) => t.handle,
        }
    }

    /// The buffer held here; expecting the wrong variant is an invariant
    /// violation, so the variant is a precondition rather than a runtime case.
    pub fn expect_buffer(&self) -> (r: &DeviceBuffer)
        requires
            self is Buffer,
        ensures
            *r == self->Buffer_0,
    {
        match self {
            BindableResource::Buffer(buffer) => buffer,
            _ => unreached(),
        }
    }

    /// The texture view held here; the variant is a precondition.
    pub fn expect_texture_view(&self) -> (r: &TextureViewState)
        requires
            self is Texture,
        ensures
            *r == self->Texture_0,
    {
        match self {
            BindableResource::Texture(view) => view,
            _ => unreached(),
        }
    }

    /// The acceleration-structure package held here; the variant is a
    /// precondition.
    pub fn expect_tlas_package(&self) -> (r: &TlasState)
        requires
            self is AccelerationStructure,
        ensures
            *r == self->AccelerationStructure_0,
    {
        match self {
            BindableResource::AccelerationStructure(package) => package,
            _ => unreached(),
        }
    }

    /// The buffer held here, or `None` on any other variant: for call sites
    /// that have not already established which variant they hold.
    pub fn as_buffer(&self) -> (r: Option<&DeviceBuffer>)
        ensures
            match r {
                Some(b) => self is Buffer && *b == self->Buffer_0,
                None => !(self is Buffer),
            },
    {
        match self {
            BindableResource::Buffer(buffer) => Some(buffer),
            _ => None,
        }
    }
}

} // verus!
