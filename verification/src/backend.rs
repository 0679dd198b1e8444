//! The resource cache a render context drives: lookups by logical identity
//! and the primitive operations that materialize backend objects.

use crate::pass::{ColorAttachment, DepthStencilAttachment, TextureView};
use crate::pipeline::{Binding, BindGroupLayoutEntry, BindingResource, PipelineDescriptor};
use crate::resource::{
    BindGroupDescriptorId, PipelineHandle, RenderResource, RenderResourceSetId, ResourceInfo,
    ShaderHandle, WindowId,
};
use crate::shader::Shader;
use vstd::prelude::*;

verus! {

/// `bevy_render::texture::TextureDescriptor`, carried from the caller to the
/// backend. Nothing is known of what a value holds.
#[verifier::external_type_specification]
#[verifier::external_body]
pub struct ExTextureDescriptor(bevy_render::texture::TextureDescriptor);

/// A backend object, named by the identity it was created for.
#[derive(Clone, Copy, Debug, PartialEq, Eq, Structural, Hash)]
pub enum BackendObject {
    Buffer(RenderResource),
    Texture(RenderResource),
    Sampler(RenderResource),
    BindGroupLayout(BindGroupDescriptorId),
    PipelineLayout,
    ShaderModule(ShaderHandle),
    RenderPipeline(PipelineHandle),
    BindGroup(BindGroupDescriptorId, RenderResourceSetId),
}

/// A command on a recording.
pub enum Command {
    /// The upload of bytes into a texture that was created as described.
    WriteTexture {
        texture: RenderResource,
        descriptor: bevy_render::texture::TextureDescriptor,
        bytes: Seq<u8>,
    },
    /// A copy of `size` bytes between two buffers.
    CopyBufferToBuffer {
        source: RenderResource,
        source_offset: u64,
        destination: RenderResource,
        destination_offset: u64,
        size: u64,
    },
    /// A render pass over resolved attachments.
    RenderPass {
        color_attachments: Seq<ColorAttachment>,
        depth_stencil_attachment: Option<DepthStencilAttachment>,
    },
}

/// Commands in the order in which they were recorded.
pub type Commands = Seq<Command>;

/// The identities of bind groups, in the order of a pipeline layout.
pub type BindGroupIds = Seq<BindGroupDescriptorId>;

/// The color attachments of a pass, in declaration order.
pub type ColorAttachments = Seq<ColorAttachment>;

/// What a materialized pipeline was built from.
pub struct PipelineRecord {
    /// The bind groups of the pipeline layout, in order.
    pub bind_group_layouts: Seq<BindGroupDescriptorId>,
    /// The description that gave the shader stages and the fixed-function state.
    pub descriptor: PipelineDescriptor,
    /// The entry symbol of both shader stages.
    pub entry_point: Seq<char>,
}

/// The contents of a resource cache.
pub struct ResourceState {
    /// The materialized buffers, textures and samplers.
    pub resources: Map<RenderResource, ResourceInfo>,
    /// The windows whose swap chain has a current output.
    pub swap_chain_outputs: Set<WindowId>,
    /// The entries each materialized bind-group layout was created with.
    pub bind_group_layouts: Map<BindGroupDescriptorId, Seq<BindGroupLayoutEntry>>,
    /// The bindings each materialized bind group was created with.
    pub bind_groups: Map<(BindGroupDescriptorId, RenderResourceSetId), Seq<Binding>>,
    /// The shaders with a compiled module.
    pub shader_modules: Set<ShaderHandle>,
    /// The materialized pipelines.
    pub pipelines: Map<PipelineHandle, PipelineRecord>,
    /// Every backend object created so far, oldest first.
    pub created: Seq<BackendObject>,
}

impl ResourceState {
    /// A binding refers to a materialized resource of the kind it names; a
    /// buffer range lies within the buffer.
    pub open spec fn admits_binding(self, binding: Binding) -> bool {
        match binding.resource {
            BindingResource::Buffer { buffer, start, end } => {
                &&& self.resources.contains_key(buffer)
                &&& self.resources[buffer] matches ResourceInfo::Buffer(info)
                &&& start <= end <= info.size
            },
            BindingResource::TextureView(texture) => {
                &&& self.resources.contains_key(texture)
                &&& self.resources[texture] == ResourceInfo::Texture
            },
            BindingResource::Sampler(sampler) => {
                &&& self.resources.contains_key(sampler)
                &&& self.resources[sampler] == ResourceInfo::Sampler
            },
        }
    }

    /// A resource is a materialized buffer.
    pub open spec fn is_buffer(self, resource: RenderResource) -> bool {
        self.resources.contains_key(resource) && self.resources[resource] is Buffer
    }

    /// A texture view can be had from the cache.
    pub open spec fn has_view(self, view: TextureView) -> bool {
        match view {
            TextureView::SwapChainOutput(window) => self.swap_chain_outputs.contains(window),
            TextureView::Texture(texture) => {
                &&& self.resources.contains_key(texture)
                &&& self.resources[texture] == ResourceInfo::Texture
            },
        }
    }

    /// Both views of a color attachment can be had from the cache.
    pub open spec fn has_color_views(self, attachment: ColorAttachment) -> bool {
        &&& self.has_view(attachment.attachment)
        &&& attachment.resolve_target matches Some(target) ==> self.has_view(target)
    }

    /// The state after one more backend object was created.
    pub open spec fn record(self, object: BackendObject) -> ResourceState {
        ResourceState { created: self.created.push(object), ..self }
    }
}

/// A cache of backend objects, keyed by logical identity, and the device
/// that creates them. A lookup that finds nothing is not an error: it is
/// what triggers materialization.
///
/// The contracts of this trait are what the render context relies on. They
/// are proved of [`crate::headless::HeadlessRenderResourceContext`]. Of an
/// implementation that is not verified, such as one over a graphics device,
/// they are assumptions: what is proved of the render context holds of it
/// as far as it keeps them.
pub trait RenderResourceContext: Sized {
    /// A recording of commands that can still grow.
    type CommandEncoder;

    /// A sealed recording, ready to be submitted.
    type CommandBuffer;

    /// The backend's pipeline-layout object.
    type PipelineLayout;

    /// An open render-pass scope. It holds the recording it was opened on,
    /// so that the recording cannot be sealed, or written to, while the
    /// scope is open.
    type RenderPass;

    /// The contents of the cache.
    spec fn state(&self) -> ResourceState;

    /// The commands recorded on an encoder, oldest first.
    spec fn commands(encoder: &Self::CommandEncoder) -> Commands;

    /// The commands of a sealed recording, oldest first.
    spec fn sealed_commands(buffer: &Self::CommandBuffer) -> Commands;

    /// The bind-group layouts a pipeline layout was assembled from, in order.
    spec fn layout_bind_groups(layout: &Self::PipelineLayout) -> BindGroupIds;

    /// The commands on the recording a pass scope was opened on.
    spec fn pass_commands(pass: &Self::RenderPass) -> Commands;

    /// The color attachments a pass scope was opened over.
    spec fn pass_color_attachments(pass: &Self::RenderPass) -> ColorAttachments;

    /// The depth/stencil attachment a pass scope was opened over.
    spec fn pass_depth_stencil_attachment(pass: &Self::RenderPass) -> Option<
        DepthStencilAttachment,
    >;

    /// Starts an empty recording.
    fn create_command_encoder(&self) -> (encoder: Self::CommandEncoder)
        ensures
            Self::commands(&encoder) == Seq::<Command>::empty(),
    ;

    /// Seals a recording.
    fn finish_command_encoder(encoder: Self::CommandEncoder) -> (buffer: Self::CommandBuffer)
        ensures
            Self::sealed_commands(&buffer) == Self::commands(&encoder),
    ;

    fn get_resource_info(&self, resource: RenderResource) -> (info: Option<ResourceInfo>)
        ensures
            info == if self.state().resources.contains_key(resource) {
                Some(self.state().resources[resource])
            } else {
                None
            },
    ;

    fn has_swap_chain_output(&self, window: WindowId) -> (present: bool)
        ensures
            present == self.state().swap_chain_outputs.contains(window),
    ;

    fn has_bind_group_layout(&self, bind_group: BindGroupDescriptorId) -> (present: bool)
        ensures
            present == self.state().bind_group_layouts.contains_key(bind_group),
    ;

    fn has_bind_group(&self, bind_group: BindGroupDescriptorId, set: RenderResourceSetId) -> (present:
        bool)
        ensures
            present == self.state().bind_groups.contains_key((bind_group, set)),
    ;

    fn has_shader_module(&self, shader: ShaderHandle) -> (present: bool)
        ensures
            present == self.state().shader_modules.contains(shader),
    ;

    fn has_pipeline(&self, pipeline: PipelineHandle) -> (present: bool)
        ensures
            present == self.state().pipelines.contains_key(pipeline),
    ;

    /// Creates a texture, records the upload of `bytes` into it on
    /// `encoder`, and caches it under a handle that was not in use.
    fn create_texture_with_data(
        &mut self,
        encoder: &mut Self::CommandEncoder,
        texture_descriptor: &bevy_render::texture::TextureDescriptor,
        bytes: &[u8],
    ) -> (resource: RenderResource)
        ensures
            Self::commands(final(encoder)) == Self::commands(old(encoder)).push(
                Command::WriteTexture {
                    texture: resource,
                    descriptor: *texture_descriptor,
                    bytes: bytes@,
                },
            ),
            !old(self).state().resources.contains_key(resource),
            final(self).state() == (ResourceState {
                resources: old(self).state().resources.insert(resource, ResourceInfo::Texture),
                ..old(self).state().record(BackendObject::Texture(resource))
            }),
    ;

    /// Creates the layout object of a bind group and caches it.
    fn create_bind_group_layout(
        &mut self,
        bind_group: BindGroupDescriptorId,
        entries: &Vec<BindGroupLayoutEntry>,
    )
        requires
            !old(self).state().bind_group_layouts.contains_key(bind_group),
        ensures
            final(self).state() == (ResourceState {
                bind_group_layouts: old(self).state().bind_group_layouts.insert(
                    bind_group,
                    entries@,
                ),
                ..old(self).state().record(BackendObject::BindGroupLayout(bind_group))
            }),
    ;

    /// Assembles a pipeline layout from cached bind-group layouts, in the
    /// order given.
    fn create_pipeline_layout(&mut self, bind_groups: &Vec<BindGroupDescriptorId>) -> (layout:
        Self::PipelineLayout)
        requires
            forall|i: int|
                0 <= i < bind_groups@.len() ==> old(self).state().bind_group_layouts.contains_key(
                    #[trigger] bind_groups@[i],
                ),
        ensures
            Self::layout_bind_groups(&layout) == bind_groups@,
            final(self).state() == old(self).state().record(BackendObject::PipelineLayout),
    ;

    /// Compiles a shader into a module and caches it.
    fn create_shader_module(&mut self, handle: ShaderHandle, shader: &Shader)
        requires
            !old(self).state().shader_modules.contains(handle),
        ensures
            final(self).state() == (ResourceState {
                shader_modules: old(self).state().shader_modules.insert(handle),
                ..old(self).state().record(BackendObject::ShaderModule(handle))
            }),
    ;

    /// Creates a render pipeline from a layout, the cached modules of the
    /// description's shader stages, entered at `entry_point`, and the
    /// description's fixed-function state, and caches it.
    fn create_render_pipeline(
        &mut self,
        pipeline: PipelineHandle,
        layout: &Self::PipelineLayout,
        descriptor: &PipelineDescriptor,
        entry_point: &str,
    )
        requires
            !old(self).state().pipelines.contains_key(pipeline),
            old(self).state().shader_modules.contains(descriptor.shader_stages.vertex),
            descriptor.shader_stages.fragment matches Some(fragment) ==> old(
                self,
            ).state().shader_modules.contains(fragment),
        ensures
            final(self).state() == (ResourceState {
                pipelines: old(self).state().pipelines.insert(
                    pipeline,
                    PipelineRecord {
                        bind_group_layouts: Self::layout_bind_groups(layout),
                        descriptor: *descriptor,
                        entry_point: entry_point@,
                    },
                ),
                ..old(self).state().record(BackendObject::RenderPipeline(pipeline))
            }),
    ;

    /// Creates a bind group over a cached layout and caches it under the
    /// layout's identity and the resource-set id.
    fn create_bind_group(
        &mut self,
        bind_group: BindGroupDescriptorId,
        set: RenderResourceSetId,
        bindings: &Vec<Binding>,
    )
        requires
            old(self).state().bind_group_layouts.contains_key(bind_group),
            !old(self).state().bind_groups.contains_key((bind_group, set)),
            forall|i: int|
                0 <= i < bindings@.len() ==> old(self).state().admits_binding(
                    #[trigger] bindings@[i],
                ),
        ensures
            final(self).state() == (ResourceState {
                bind_groups: old(self).state().bind_groups.insert((bind_group, set), bindings@),
                ..old(self).state().record(BackendObject::BindGroup(bind_group, set))
            }),
    ;

    /// Records a copy between two cached buffers on `encoder`.
    fn copy_buffer_to_buffer(
        &self,
        encoder: &mut Self::CommandEncoder,
        source: RenderResource,
        source_offset: u64,
        destination: RenderResource,
        destination_offset: u64,
        size: u64,
    )
        requires
            self.state().is_buffer(source),
            self.state().is_buffer(destination),
        ensures
            Self::commands(final(encoder)) == Self::commands(old(encoder)).push(
                Command::CopyBufferToBuffer {
                    source,
                    source_offset,
                    destination,
                    destination_offset,
                    size,
                },
            ),
    ;

    /// Opens a render-pass scope on `encoder` over resolved attachments.
    /// The pass is recorded when the scope is closed.
    fn begin_render_pass(
        &self,
        encoder: Self::CommandEncoder,
        color_attachments: &Vec<ColorAttachment>,
        depth_stencil_attachment: &Option<DepthStencilAttachment>,
    ) -> (pass: Self::RenderPass)
        requires
            forall|i: int|
                0 <= i < color_attachments@.len() ==> self.state().has_color_views(
                    #[trigger] color_attachments@[i],
                ),
            *depth_stencil_attachment matches Some(depth) ==> self.state().has_view(
                depth.attachment,
            ),
        ensures
            Self::pass_color_attachments(&pass) == color_attachments@,
            Self::pass_depth_stencil_attachment(&pass) == *depth_stencil_attachment,
            Self::pass_commands(&pass) == Self::commands(&encoder),
    ;

    /// Closes a render-pass scope, which records the pass, and hands back
    /// the recording it was opened on.
    fn end_render_pass(&self, pass: Self::RenderPass) -> (encoder: Self::CommandEncoder)
        ensures
            Self::commands(&encoder) == Self::pass_commands(&pass).push(
                Command::RenderPass {
                    color_attachments: Self::pass_color_attachments(&pass),
                    depth_stencil_attachment: Self::pass_depth_stencil_attachment(&pass),
                },
            ),
    ;
}

} // verus!
