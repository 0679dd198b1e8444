//! A resource cache without a graphics device. It keeps the books of a
//! real cache (which identities are materialized, and from what) and
//! records every object it is asked to create, but creates nothing.

use crate::backend::{
    BackendObject, Command, PipelineRecord, RenderResourceContext, ResourceState,
};
use crate::pass::{ColorAttachment, DepthStencilAttachment};
use crate::pipeline::{Binding, BindGroupLayoutEntry, PipelineDescriptor, ShaderStages};
use crate::registry::Registry;
use crate::resource::{
    BindGroupDescriptorId, BufferInfo, PipelineHandle, RenderResource, RenderResourceSetId,
    ResourceInfo, ShaderHandle, WindowId,
};
use crate::shader::{Shader, ShaderStage};
use vstd::prelude::*;
use vstd::slice::slice_to_vec;

verus! {

/// A command as a headless encoder keeps it.
#[derive(Debug, PartialEq, Eq)]
pub enum HeadlessCommand {
    WriteTexture {
        texture: RenderResource,
        descriptor: bevy_render::texture::TextureDescriptor,
        bytes: Vec<u8>,
    },
    CopyBufferToBuffer {
        source: RenderResource,
        source_offset: u64,
        destination: RenderResource,
        destination_offset: u64,
        size: u64,
    },
    RenderPass {
        color_attachments: Vec<ColorAttachment>,
        depth_stencil_attachment: Option<DepthStencilAttachment>,
    },
}

impl View for HeadlessCommand {
    type V = Command;

    open spec fn view(&self) -> Command {
        match self {
            HeadlessCommand::WriteTexture { texture, descriptor, bytes } => Command::WriteTexture {
                texture: *texture,
                descriptor: *descriptor,
                bytes: bytes@,
            },
            HeadlessCommand::CopyBufferToBuffer {
                source,
                source_offset,
                destination,
                destination_offset,
                size,
            } => Command::CopyBufferToBuffer {
                source: *source,
                source_offset: *source_offset,
                destination: *destination,
                destination_offset: *destination_offset,
                size: *size,
            },
            HeadlessCommand::RenderPass {
                color_attachments,
                depth_stencil_attachment,
            } => Command::RenderPass {
                color_attachments: color_attachments@,
                depth_stencil_attachment: *depth_stencil_attachment,
            },
        }
    }
}

/// The commands that a list of kept commands stands for.
pub open spec fn command_views(commands: Seq<HeadlessCommand>) -> Seq<Command> {
    commands.map_values(|command: HeadlessCommand| command@)
}

/// The encoder of a headless cache: the commands recorded so far.
#[derive(Debug, PartialEq, Eq)]
pub struct HeadlessCommandEncoder {
    pub commands: Vec<HeadlessCommand>,
}

/// The command buffer of a headless cache: the commands that were sealed.
#[derive(Debug, PartialEq, Eq)]
pub struct HeadlessCommandBuffer {
    pub commands: Vec<HeadlessCommand>,
}

impl HeadlessCommandEncoder {
    /// Appends a command to the recording.
    fn record(&mut self, command: HeadlessCommand)
        ensures
            command_views(final(self).commands@) == command_views(old(self).commands@).push(
                command@,
            ),
    {
        self.commands.push(command);
        proof {
            assert(command_views(self.commands@) =~= command_views(old(self).commands@).push(
                command@,
            ));
        }
    }
}

/// The pipeline layout of a headless cache: the bind groups it was
/// assembled from.
#[derive(Clone, Debug, PartialEq, Eq)]
pub struct HeadlessPipelineLayout {
    pub bind_groups: Vec<BindGroupDescriptorId>,
}

/// The pass scope of a headless cache: the recording it was opened on and
/// the attachments it was opened over.
#[derive(Debug, PartialEq, Eq)]
pub struct HeadlessRenderPass {
    pub encoder: HeadlessCommandEncoder,
    pub color_attachments: Vec<ColorAttachment>,
    pub depth_stencil_attachment: Option<DepthStencilAttachment>,
}

/// The pipeline of a headless cache: what it was built from.
#[derive(Clone, Debug, PartialEq, Eq)]
pub struct HeadlessPipeline {
    pub bind_group_layouts: Vec<BindGroupDescriptorId>,
    pub shader_stages: ShaderStages,
    pub entry_point: String,
}

pub struct HeadlessRenderResourceContext {
    /// The materialized resources; a handle is an index into them.
    pub resources: Vec<ResourceInfo>,
    pub swap_chain_outputs: Registry<WindowId, ()>,
    pub bind_group_layouts: Registry<BindGroupDescriptorId, Vec<BindGroupLayoutEntry>>,
    pub bind_groups: Registry<(BindGroupDescriptorId, RenderResourceSetId), Vec<Binding>>,
    pub shader_modules: Registry<ShaderHandle, ShaderStage>,
    pub pipelines: Registry<PipelineHandle, HeadlessPipeline>,
    /// The description each pipeline was created from.
    pub pipeline_descriptors: Ghost<Map<PipelineHandle, PipelineDescriptor>>,
    pub created: Vec<BackendObject>,
}

/// A copy of a vector of plain values.
fn copy_of<V: Copy>(items: &Vec<V>) -> (copy: Vec<V>)
    ensures
        copy@ == items@,
{
    let mut copy: Vec<V> = Vec::new();
    let mut i: usize = 0;
    while i < items.len()
        invariant
            i <= items@.len(),
            copy@ == items@.take(i as int),
        decreases items@.len() - i,
    {
        copy.push(items[i]);
        proof {
            assert(items@.take(i + 1) == items@.take(i as int).push(items@[i as int]));
        }
        i += 1;
    }
    proof {
        assert(items@.take(i as int) == items@);
    }
    copy
}

impl HeadlessRenderResourceContext {
    /// The resource each handle in use stands for.
    pub open spec fn resource_map(&self) -> Map<RenderResource, ResourceInfo> {
        Map::new(
            |resource: RenderResource| resource.0 < self.resources@.len(),
            |resource: RenderResource| self.resources@[resource.0 as int],
        )
    }

    /// An empty cache.
    pub fn new() -> (cache: Self)
        ensures
            cache.state() == (ResourceState {
                resources: Map::empty(),
                swap_chain_outputs: Set::empty(),
                bind_group_layouts: Map::empty(),
                bind_groups: Map::empty(),
                shader_modules: Set::empty(),
                pipelines: Map::empty(),
                created: Seq::empty(),
            }),
    {
        let cache = HeadlessRenderResourceContext {
            resources: Vec::new(),
            swap_chain_outputs: Registry::new(),
            bind_group_layouts: Registry::new(),
            bind_groups: Registry::new(),
            shader_modules: Registry::new(),
            pipelines: Registry::new(),
            pipeline_descriptors: Ghost(Map::empty()),
            created: Vec::new(),
        };
        proof {
            let state = cache.state();
            assert(state.resources =~= Map::empty());
            assert(state.swap_chain_outputs =~= Set::empty());
            assert(state.bind_group_layouts =~= Map::empty());
            assert(state.bind_groups =~= Map::empty());
            assert(state.shader_modules =~= Set::empty());
            assert(state.pipelines =~= Map::empty());
        }
        cache
    }

    /// Materializes a resource under the next unused handle.
    fn add_resource(&mut self, info: ResourceInfo) -> (resource: RenderResource)
        ensures
            !old(self).state().resources.contains_key(resource),
            resource.0 == old(self).resources@.len(),
            final(self).state() == (ResourceState {
                resources: old(self).state().resources.insert(resource, info),
                created: final(self).created@,
                ..old(self).state()
            }),
            final(self).created@ == old(self).created@,
    {
        let resource = RenderResource(self.resources.len() as u64);
        self.resources.push(info);
        proof {
            assert(self.state().resources =~= old(self).state().resources.insert(resource, info));
        }
        resource
    }

    /// Materializes a buffer under a handle that was not in use.
    pub fn create_buffer(&mut self, info: BufferInfo) -> (resource: RenderResource)
        ensures
            !old(self).state().resources.contains_key(resource),
            final(self).state() == (ResourceState {
                resources: old(self).state().resources.insert(
                    resource,
                    ResourceInfo::Buffer(info),
                ),
                ..old(self).state().record(BackendObject::Buffer(resource))
            }),
    {
        let resource = self.add_resource(ResourceInfo::Buffer(info));
        self.created.push(BackendObject::Buffer(resource));
        resource
    }

    /// Materializes a texture under a handle that was not in use.
    pub fn create_texture(&mut self) -> (resource: RenderResource)
        ensures
            !old(self).state().resources.contains_key(resource),
            final(self).state() == (ResourceState {
                resources: old(self).state().resources.insert(resource, ResourceInfo::Texture),
                ..old(self).state().record(BackendObject::Texture(resource))
            }),
    {
        let resource = self.add_resource(ResourceInfo::Texture);
        self.created.push(BackendObject::Texture(resource));
        resource
    }

    /// Materializes a sampler under a handle that was not in use.
    pub fn create_sampler(&mut self) -> (resource: RenderResource)
        ensures
            !old(self).state().resources.contains_key(resource),
            final(self).state() == (ResourceState {
                resources: old(self).state().resources.insert(resource, ResourceInfo::Sampler),
                ..old(self).state().record(BackendObject::Sampler(resource))
            }),
    {
        let resource = self.add_resource(ResourceInfo::Sampler);
        self.created.push(BackendObject::Sampler(resource));
        resource
    }

    /// Gives a window a current swap-chain output.
    pub fn set_swap_chain_output(&mut self, window: WindowId)
        ensures
            final(self).state() == (ResourceState {
                swap_chain_outputs: old(self).state().swap_chain_outputs.insert(window),
                ..old(self).state()
            }),
    {
        self.swap_chain_outputs.insert(window, ());
        proof {
            assert(self.state().swap_chain_outputs =~= old(self).state().swap_chain_outputs.insert(
                window,
            ));
        }
    }
}

impl RenderResourceContext for HeadlessRenderResourceContext {
    type CommandEncoder = HeadlessCommandEncoder;

    type CommandBuffer = HeadlessCommandBuffer;

    type PipelineLayout = HeadlessPipelineLayout;

    type RenderPass = HeadlessRenderPass;

    open spec fn state(&self) -> ResourceState {
        ResourceState {
            resources: self.resource_map(),
            swap_chain_outputs: self.swap_chain_outputs@.dom(),
            bind_group_layouts: self.bind_group_layouts@.map_values(
                |entries: Vec<BindGroupLayoutEntry>| entries@,
            ),
            bind_groups: self.bind_groups@.map_values(|bindings: Vec<Binding>| bindings@),
            shader_modules: self.shader_modules@.dom(),
            pipelines: Map::new(
                |pipeline: PipelineHandle| self.pipelines@.contains_key(pipeline),
                |pipeline: PipelineHandle|
                    PipelineRecord {
                        bind_group_layouts: self.pipelines@[pipeline].bind_group_layouts@,
                        descriptor: self.pipeline_descriptors@[pipeline],
                        entry_point: self.pipelines@[pipeline].entry_point@,
                    },
            ),
            created: self.created@,
        }
    }

    open spec fn commands(encoder: &HeadlessCommandEncoder) -> Seq<Command> {
        command_views(encoder.commands@)
    }

    open spec fn sealed_commands(buffer: &HeadlessCommandBuffer) -> Seq<Command> {
        command_views(buffer.commands@)
    }

    open spec fn layout_bind_groups(layout: &HeadlessPipelineLayout) -> Seq<
        BindGroupDescriptorId,
    > {
        layout.bind_groups@
    }

    open spec fn pass_commands(pass: &HeadlessRenderPass) -> Seq<Command> {
        command_views(pass.encoder.commands@)
    }

    open spec fn pass_color_attachments(pass: &HeadlessRenderPass) -> Seq<ColorAttachment> {
        pass.color_attachments@
    }

    open spec fn pass_depth_stencil_attachment(pass: &HeadlessRenderPass) -> Option<
        DepthStencilAttachment,
    > {
        pass.depth_stencil_attachment
    }

    fn create_command_encoder(&self) -> (encoder: HeadlessCommandEncoder)
        ensures
            encoder.commands@ == Seq::<HeadlessCommand>::empty(),
    {
        let encoder = HeadlessCommandEncoder { commands: Vec::new() };
        proof {
            assert(command_views(encoder.commands@) =~= Seq::<Command>::empty());
        }
        encoder
    }

    fn finish_command_encoder(encoder: HeadlessCommandEncoder) -> (buffer: HeadlessCommandBuffer) {
        HeadlessCommandBuffer { commands: encoder.commands }
    }

    fn get_resource_info(&self, resource: RenderResource) -> (info: Option<ResourceInfo>) {
        if resource.0 < self.resources.len() as u64 {
            Some(self.resources[resource.0 as usize])
        } else {
            None
        }
    }

    fn has_swap_chain_output(&self, window: WindowId) -> (present: bool) {
        self.swap_chain_outputs.contains(&window)
    }

    fn has_bind_group_layout(&self, bind_group: BindGroupDescriptorId) -> (present: bool) {
        self.bind_group_layouts.contains(&bind_group)
    }

    fn has_bind_group(&self, bind_group: BindGroupDescriptorId, set: RenderResourceSetId) -> (present:
        bool) {
        self.bind_groups.contains(&(bind_group, set))
    }

    fn has_shader_module(&self, shader: ShaderHandle) -> (present: bool) {
        self.shader_modules.contains(&shader)
    }

    fn has_pipeline(&self, pipeline: PipelineHandle) -> (present: bool) {
        self.pipelines.contains(&pipeline)
    }

    fn create_texture_with_data(
        &mut self,
        encoder: &mut HeadlessCommandEncoder,
        texture_descriptor: &bevy_render::texture::TextureDescriptor,
        bytes: &[u8],
    ) -> (resource: RenderResource) {
        let resource = self.create_texture();
        encoder.record(
            HeadlessCommand::WriteTexture {
                texture: resource,
                descriptor: *texture_descriptor,
                bytes: slice_to_vec(bytes),
            },
        );
        resource
    }

    fn create_bind_group_layout(
        &mut self,
        bind_group: BindGroupDescriptorId,
        entries: &Vec<BindGroupLayoutEntry>,
    ) {
        let stored = copy_of(entries);
        self.bind_group_layouts.insert(bind_group, stored);
        self.created.push(BackendObject::BindGroupLayout(bind_group));
        proof {
            assert(self.state().bind_group_layouts =~= old(
                self,
            ).state().bind_group_layouts.insert(bind_group, entries@));
        }
    }

    fn create_pipeline_layout(&mut self, bind_groups: &Vec<BindGroupDescriptorId>) -> (layout:
        HeadlessPipelineLayout) {
        self.created.push(BackendObject::PipelineLayout);
        HeadlessPipelineLayout { bind_groups: copy_of(bind_groups) }
    }

    fn create_shader_module(&mut self, handle: ShaderHandle, shader: &Shader) {
        self.shader_modules.insert(handle, shader.stage);
        self.created.push(BackendObject::ShaderModule(handle));
        proof {
            assert(self.state().shader_modules =~= old(self).state().shader_modules.insert(
                handle,
            ));
        }
    }

    fn create_render_pipeline(
        &mut self,
        pipeline: PipelineHandle,
        layout: &HeadlessPipelineLayout,
        descriptor: &PipelineDescriptor,
        entry_point: &str,
    ) {
        let stored = HeadlessPipeline {
            bind_group_layouts: copy_of(&layout.bind_groups),
            shader_stages: descriptor.shader_stages,
            entry_point: entry_point.to_owned(),
        };
        self.pipelines.insert(pipeline, stored);
        self.pipeline_descriptors = Ghost(self.pipeline_descriptors@.insert(pipeline, *descriptor));
        self.created.push(BackendObject::RenderPipeline(pipeline));
        proof {
            assert(self.state().pipelines =~= old(self).state().pipelines.insert(
                pipeline,
                PipelineRecord {
                    bind_group_layouts: layout.bind_groups@,
                    descriptor: *descriptor,
                    entry_point: entry_point@,
                },
            ));
        }
    }

    fn create_bind_group(
        &mut self,
        bind_group: BindGroupDescriptorId,
        set: RenderResourceSetId,
        bindings: &Vec<Binding>,
    ) {
        let stored = copy_of(bindings);
        self.bind_groups.insert((bind_group, set), stored);
        self.created.push(BackendObject::BindGroup(bind_group, set));
        proof {
            assert(self.state().bind_groups =~= old(self).state().bind_groups.insert(
                (bind_group, set),
                bindings@,
            ));
        }
    }

    fn copy_buffer_to_buffer(
        &self,
        encoder: &mut HeadlessCommandEncoder,
        source: RenderResource,
        source_offset: u64,
        destination: RenderResource,
        destination_offset: u64,
        size: u64,
    ) {
        encoder.record(
            HeadlessCommand::CopyBufferToBuffer {
                source,
                source_offset,
                destination,
                destination_offset,
                size,
            },
        );
    }

    fn begin_render_pass(
        &self,
        encoder: HeadlessCommandEncoder,
        color_attachments: &Vec<ColorAttachment>,
        depth_stencil_attachment: &Option<DepthStencilAttachment>,
    ) -> (pass: HeadlessRenderPass) {
        HeadlessRenderPass {
            encoder,
            color_attachments: copy_of(color_attachments),
            depth_stencil_attachment: *depth_stencil_attachment,
        }
    }

    fn end_render_pass(&self, pass: HeadlessRenderPass) -> (encoder: HeadlessCommandEncoder) {
        let mut encoder = pass.encoder;
        encoder.record(
            HeadlessCommand::RenderPass {
                color_attachments: pass.color_attachments,
                depth_stencil_attachment: pass.depth_stencil_attachment,
            },
        );
        encoder
    }
}

} // verus!
