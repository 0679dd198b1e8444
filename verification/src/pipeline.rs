//! Declarative descriptions of bind groups and render pipelines.
//!
//! What the render context reads (identities, binding names and kinds,
//! shader stages) is held as plain data. Fixed-function state is carried
//! through to the backend untouched, in the types of `bevy_render`.

use crate::resource::{BindGroupDescriptorId, RenderResource, ShaderHandle};
use vstd::prelude::*;

verus! {

/// `bevy_render::pipeline::RasterizationStateDescriptor`, carried from a pipeline description
/// to the backend. Nothing is known of what a value holds.
#[verifier::external_type_specification]
#[verifier::external_body]
pub struct ExRasterizationStateDescriptor(bevy_render::pipeline::RasterizationStateDescriptor);

/// `bevy_render::pipeline::PrimitiveTopology`, carried from a pipeline description
/// to the backend. Nothing is known of what a value holds.
#[verifier::external_type_specification]
#[verifier::external_body]
pub struct ExPrimitiveTopology(bevy_render::pipeline::PrimitiveTopology);

/// `bevy_render::pipeline::ColorStateDescriptor`, carried from a pipeline description
/// to the backend. Nothing is known of what a value holds.
#[verifier::external_type_specification]
#[verifier::external_body]
pub struct ExColorStateDescriptor(bevy_render::pipeline::ColorStateDescriptor);

/// `bevy_render::pipeline::DepthStencilStateDescriptor`, carried from a pipeline description
/// to the backend. Nothing is known of what a value holds.
#[verifier::external_type_specification]
#[verifier::external_body]
pub struct ExDepthStencilStateDescriptor(bevy_render::pipeline::DepthStencilStateDescriptor);

/// `bevy_render::pipeline::IndexFormat`, carried from a pipeline description
/// to the backend. Nothing is known of what a value holds.
#[verifier::external_type_specification]
#[verifier::external_body]
pub struct ExIndexFormat(bevy_render::pipeline::IndexFormat);

/// `bevy_render::pipeline::VertexBufferDescriptor`, carried from a pipeline description
/// to the backend. Nothing is known of what a value holds.
#[verifier::external_type_specification]
#[verifier::external_body]
pub struct ExVertexBufferDescriptor(bevy_render::pipeline::VertexBufferDescriptor);

/// How a texture is viewed by a shader.
#[derive(Clone, Copy, Debug, PartialEq, Eq, Structural, Hash)]
pub enum TextureViewDimension {
    D1,
    D2,
    D2Array,
    Cube,
    CubeArray,
    D3,
}

/// The component type a shader samples from a texture.
#[derive(Clone, Copy, Debug, PartialEq, Eq, Structural, Hash)]
pub enum TextureComponentType {
    Float,
    Sint,
    Uint,
}

/// The declared kind of a binding.
#[derive(Clone, Copy, Debug, PartialEq, Eq, Structural, Hash)]
pub enum BindType {
    Uniform { dynamic: bool },
    StorageBuffer { dynamic: bool, readonly: bool },
    Sampler { comparison: bool },
    SampledTexture {
        multisampled: bool,
        dimension: TextureViewDimension,
        component_type: TextureComponentType,
    },
    StorageTexture { dimension: TextureViewDimension, readonly: bool },
}

/// One named binding of a bind-group layout.
#[derive(Clone, Debug, PartialEq, Eq)]
pub struct BindingDescriptor {
    pub name: String,
    pub index: u32,
    pub bind_type: BindType,
}

/// A bind-group layout: its identity and its bindings in declaration order.
#[derive(Clone, Debug, PartialEq, Eq)]
pub struct BindGroupDescriptor {
    pub id: BindGroupDescriptorId,
    pub index: u32,
    pub bindings: Vec<BindingDescriptor>,
}

/// The shader stages a binding is visible to.
#[derive(Clone, Copy, Debug, PartialEq, Eq, Structural, Hash)]
pub struct ShaderStageFlags {
    pub vertex: bool,
    pub fragment: bool,
    pub compute: bool,
}

/// One entry of a backend bind-group layout.
#[derive(Clone, Copy, Debug, PartialEq, Eq, Structural, Hash)]
pub struct BindGroupLayoutEntry {
    pub binding: u32,
    pub visibility: ShaderStageFlags,
    pub ty: BindType,
}

/// The resource a binding of a bind group refers to.
#[derive(Clone, Copy, Debug, PartialEq, Eq, Structural, Hash)]
pub enum BindingResource {
    /// The bytes `start..end` of a buffer.
    Buffer { buffer: RenderResource, start: u64, end: u64 },
    /// The view of a texture.
    TextureView(RenderResource),
    Sampler(RenderResource),
}

/// One resolved binding of a bind group.
#[derive(Clone, Copy, Debug, PartialEq, Eq, Structural, Hash)]
pub struct Binding {
    pub binding: u32,
    pub resource: BindingResource,
}

/// The bind groups and vertex buffers of a pipeline, in the order in which
/// draw calls address them.
pub struct PipelineLayout {
    pub bind_groups: Vec<BindGroupDescriptor>,
    pub vertex_buffer_descriptors: Vec<bevy_render::pipeline::VertexBufferDescriptor>,
}

/// The shader of each programmable stage.
#[derive(Clone, Copy, Debug, PartialEq, Eq, Structural, Hash)]
pub struct ShaderStages {
    pub vertex: ShaderHandle,
    pub fragment: Option<ShaderHandle>,
}

/// A render pipeline, as declared.
pub struct PipelineDescriptor {
    pub layout: Option<PipelineLayout>,
    pub shader_stages: ShaderStages,
    pub rasterization_state: Option<bevy_render::pipeline::RasterizationStateDescriptor>,
    pub primitive_topology: bevy_render::pipeline::PrimitiveTopology,
    pub color_states: Vec<bevy_render::pipeline::ColorStateDescriptor>,
    pub depth_stencil_state: Option<bevy_render::pipeline::DepthStencilStateDescriptor>,
    pub index_format: bevy_render::pipeline::IndexFormat,
    pub sample_count: u32,
    pub sample_mask: u32,
    pub alpha_to_coverage_enabled: bool,
}

impl PipelineDescriptor {
    /// The pipeline's layout, if one has been resolved for it.
    pub fn get_layout(&self) -> (layout: Option<&PipelineLayout>)
        ensures
            match layout {
                Some(l) => self.layout == Some(*l),
                None => self.layout is None,
            },
    {
        self.layout.as_ref()
    }
}

/// The layout entry a declared binding stands for: the same index and kind,
/// visible to the vertex and the fragment stage.
pub open spec fn layout_entry(binding: BindingDescriptor) -> BindGroupLayoutEntry {
    BindGroupLayoutEntry {
        binding: binding.index,
        visibility: ShaderStageFlags { vertex: true, fragment: true, compute: false },
        ty: binding.bind_type,
    }
}

/// The layout entries of a bind group, one per binding, in order.
pub open spec fn layout_entries(bindings: Seq<BindingDescriptor>) -> Seq<BindGroupLayoutEntry> {
    bindings.map_values(|binding: BindingDescriptor| layout_entry(binding))
}

/// Translates the bindings of a bind group into backend layout entries.
pub fn bind_group_layout_entries(bind_group: &BindGroupDescriptor) -> (entries: Vec<
    BindGroupLayoutEntry,
>)
    ensures
        entries@ == layout_entries(bind_group.bindings@),
{
    let mut entries: Vec<BindGroupLayoutEntry> = Vec::new();
    let mut i: usize = 0;
    while i < bind_group.bindings.len()
        invariant
            i <= bind_group.bindings@.len(),
            entries@ == layout_entries(bind_group.bindings@.take(i as int)),
        decreases bind_group.bindings@.len() - i,
    {
        let binding = &bind_group.bindings[i];
        entries.push(
            BindGroupLayoutEntry {
                binding: binding.index,
                visibility: ShaderStageFlags { vertex: true, fragment: true, compute: false },
                ty: binding.bind_type,
            },
        );
        proof {
            assert(bind_group.bindings@.take(i + 1) == bind_group.bindings@.take(i as int).push(
                bind_group.bindings@[i as int],
            ));
            assert(entries@ == layout_entries(bind_group.bindings@.take(i + 1)));
        }
        i += 1;
    }
    proof {
        assert(bind_group.bindings@.take(i as int) == bind_group.bindings@);
    }
    entries
}

} // verus!
