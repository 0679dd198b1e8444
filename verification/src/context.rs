//! The render context: one command recorder and one resource cache, driven
//! by declarative descriptions.

use crate::assignments::RenderResourceAssignments;
use crate::attachments::{create_render_pass, pass_attachments};
use crate::backend::{BackendObject, Command, RenderResourceContext, ResourceState};
use crate::bind_group::{
    bind_group_plan, lemma_fault_in_prefix, lemma_resolved_bindings_admitted, resolved_binding,
    resolved_bindings,
};
use crate::encoder::{LazyCommandEncoder, Recording};
use crate::error::{RenderError, RenderFault};
use crate::pass::PassDescriptor;
use crate::pipeline::{
    bind_group_layout_entries, BindGroupDescriptor, BindType, Binding, BindingDescriptor,
    BindingResource, PipelineDescriptor,
};
use crate::render_pipeline::{
    bind_group_ids, lemma_bind_group_layouts_frame, lemma_render_pipeline_frame,
    render_pipeline_plan, with_bind_group_layouts, ENTRY_POINT,
};
use crate::resource::{
    BindGroupDescriptorId, PipelineHandle, RenderResource, RenderResourceSetId, ResourceInfo,
    ResourceKind, WindowId,
};
use crate::shader::ShaderStorage;
use vstd::prelude::*;

verus! {

/// A render context over a resource cache and the device behind it.
pub struct WgpuRenderContext<T: RenderResourceContext> {
    pub primary_window: Option<WindowId>,
    pub command_encoder: LazyCommandEncoder<T>,
    pub render_resources: T,
}

impl<T: RenderResourceContext> WgpuRenderContext<T> {
    /// A context with no primary window and no active recording.
    pub fn new(resources: T) -> (context: Self)
        ensures
            context.primary_window is None,
            context.command_encoder.recording() == (Recording { active: false, created: 0 }),
            context.render_resources == resources,
    {
        WgpuRenderContext {
            primary_window: None,
            render_resources: resources,
            command_encoder: LazyCommandEncoder::new(),
        }
    }

    /// Ends the context: seals the active recording, if there is one, and
    /// hands it back with the resource cache.
    pub fn finish(self) -> (finished: (Option<T::CommandBuffer>, T))
        ensures
            match finished.0 {
                Some(buffer) => self.command_encoder.recording().active && T::sealed_commands(
                    &buffer,
                ) == self.command_encoder.commands(),
                None => !self.command_encoder.recording().active,
            },
            finished.1 == self.render_resources,
    {
        let mut this = self;
        let buffer = match this.command_encoder.take() {
            Some(encoder) => Some(T::finish_command_encoder(encoder)),
            None => None,
        };
        (buffer, this.render_resources)
    }

    /// Seals the active recording, if there is one, and leaves the recorder
    /// empty.
    pub fn finish_encoder(&mut self) -> (buffer: Option<T::CommandBuffer>)
        ensures
            match buffer {
                Some(buffer) => old(self).command_encoder.recording().active
                    && T::sealed_commands(&buffer) == old(self).command_encoder.commands(),
                None => !old(self).command_encoder.recording().active,
            },
            final(self).command_encoder.recording() == old(self).command_encoder.recording().taken(),
            final(self).render_resources == old(self).render_resources,
            final(self).primary_window == old(self).primary_window,
    {
        match self.command_encoder.take() {
            Some(encoder) => Some(T::finish_command_encoder(encoder)),
            None => None,
        }
    }

    /// The resource cache.
    pub fn resources(&self) -> (resources: &T)
        ensures
            *resources == self.render_resources,
    {
        &self.render_resources
    }

    /// Resolves one declared binding against the assignments and the cache.
    pub fn resolve_binding(
        &self,
        binding: &BindingDescriptor,
        assignments: &RenderResourceAssignments,
    ) -> (resolved: Result<Binding, RenderError>)
        ensures
            match resolved_binding(*binding, assignments, self.render_resources.state().resources) {
                Ok(expected) => resolved == Ok::<Binding, RenderError>(expected),
                Err(fault) => resolved matches Err(error) && error@ == fault,
            },
    {
        let resource = match assignments.get(binding.name.as_str()) {
            Some(resource) => resource,
            None => {
                return Err(
                    RenderError::UnassignedBinding {
                        name: binding.name.clone(),
                        assignments: assignments.id,
                    },
                );
            },
        };
        let info = match self.render_resources.get_resource_info(resource) {
            Some(info) => info,
            None => {
                return Err(RenderError::MissingResource { name: binding.name.clone(), resource });
            },
        };
        match binding.bind_type {
            BindType::SampledTexture { .. } => match info {
                ResourceInfo::Texture => Ok(
                    Binding {
                        binding: binding.index,
                        resource: BindingResource::TextureView(resource),
                    },
                ),
                _ => Err(
                    RenderError::WrongResourceKind {
                        name: binding.name.clone(),
                        expected: ResourceKind::Texture,
                        actual: info.kind(),
                    },
                ),
            },
            BindType::Sampler { .. } => match info {
                ResourceInfo::Sampler => Ok(
                    Binding { binding: binding.index, resource: BindingResource::Sampler(resource) },
                ),
                _ => Err(
                    RenderError::WrongResourceKind {
                        name: binding.name.clone(),
                        expected: ResourceKind::Sampler,
                        actual: info.kind(),
                    },
                ),
            },
            BindType::Uniform { .. } => match info {
                ResourceInfo::Buffer(buffer_info) => Ok(
                    Binding {
                        binding: binding.index,
                        resource: BindingResource::Buffer {
                            buffer: resource,
                            start: 0,
                            end: buffer_info.size,
                        },
                    },
                ),
                _ => Err(
                    RenderError::WrongResourceKind {
                        name: binding.name.clone(),
                        expected: ResourceKind::Buffer,
                        actual: info.kind(),
                    },
                ),
            },
            _ => Err(RenderError::UnsupportedBindType { name: binding.name.clone() }),
        }
    }

    /// Resolves the bindings of a bind group in declaration order, up to
    /// the first that does not resolve.
    pub fn resolve_bindings(
        &self,
        bind_group_descriptor: &BindGroupDescriptor,
        assignments: &RenderResourceAssignments,
    ) -> (resolved: Result<Vec<Binding>, RenderError>)
        ensures
            match resolved_bindings(
                bind_group_descriptor.bindings@,
                assignments,
                self.render_resources.state().resources,
            ) {
                Ok(expected) => resolved matches Ok(bindings) && bindings@ == expected,
                Err(fault) => resolved matches Err(error) && error@ == fault,
            },
    {
        let ghost declared = bind_group_descriptor.bindings@;
        let ghost resources = self.render_resources.state().resources;
        let mut bindings: Vec<Binding> = Vec::new();
        let mut i: usize = 0;
        while i < bind_group_descriptor.bindings.len()
            invariant
                declared == bind_group_descriptor.bindings@,
                resources == self.render_resources.state().resources,
                i <= declared.len(),
                resolved_bindings(declared.take(i as int), assignments, resources) == Ok::<
                    Seq<Binding>,
                    RenderFault,
                >(bindings@),
            decreases declared.len() - i,
        {
            proof {
                assert(declared.take(i + 1).drop_last() == declared.take(i as int));
            }
            match self.resolve_binding(&bind_group_descriptor.bindings[i], assignments) {
                Ok(binding) => {
                    bindings.push(binding);
                },
                Err(error) => {
                    proof {
                        lemma_fault_in_prefix(declared, assignments, resources, i + 1);
                    }
                    return Err(error);
                },
            }
            i += 1;
        }
        proof {
            assert(declared.take(i as int) == declared);
        }
        Ok(bindings)
    }

    /// Creates and caches the bind group of a layout for the resource set
    /// that is assigned to it. Returns the set id where a bind group was
    /// created, and `None` where there was nothing to do.
    pub fn create_bind_group(
        &mut self,
        bind_group_descriptor: &BindGroupDescriptor,
        render_resource_assignments: &RenderResourceAssignments,
    ) -> (created: Result<Option<RenderResourceSetId>, RenderError>)
        ensures
            match bind_group_plan(
                old(self).render_resources.state(),
                bind_group_descriptor,
                render_resource_assignments,
            ) {
                Ok(Some((set, bindings))) => {
                    &&& created == Ok::<Option<RenderResourceSetId>, RenderError>(Some(set))
                    &&& final(self).render_resources.state() == (ResourceState {
                        bind_groups: old(self).render_resources.state().bind_groups.insert(
                            (bind_group_descriptor.id, set),
                            bindings,
                        ),
                        ..old(self).render_resources.state().record(
                            BackendObject::BindGroup(bind_group_descriptor.id, set),
                        )
                    })
                },
                Ok(None) => {
                    &&& created == Ok::<Option<RenderResourceSetId>, RenderError>(None)
                    &&& final(self).render_resources.state() == old(self).render_resources.state()
                },
                Err(fault) => {
                    &&& created matches Err(error) && error@ == fault
                    &&& final(self).render_resources.state() == old(self).render_resources.state()
                },
            },
            final(self).command_encoder == old(self).command_encoder,
            final(self).primary_window == old(self).primary_window,
    {
        let set = match render_resource_assignments.get_render_resource_set_id(
            bind_group_descriptor.id,
        ) {
            Some(set) => set,
            None => {
                return Ok(None);
            },
        };
        if self.render_resources.has_bind_group(bind_group_descriptor.id, set) {
            return Ok(None);
        }
        let bindings = match self.resolve_bindings(
            bind_group_descriptor,
            render_resource_assignments,
        ) {
            Ok(bindings) => bindings,
            Err(error) => {
                return Err(error);
            },
        };
        if !self.render_resources.has_bind_group_layout(bind_group_descriptor.id) {
            return Err(
                RenderError::MissingBindGroupLayout { bind_group: bind_group_descriptor.id },
            );
        }
        proof {
            lemma_resolved_bindings_admitted(
                self.render_resources.state(),
                bind_group_descriptor.bindings@,
                render_resource_assignments,
            );
        }
        self.render_resources.create_bind_group(bind_group_descriptor.id, set, &bindings);
        Ok(Some(set))
    }
    /// Creates the missing layout objects of a pipeline's bind groups, first
    /// to last, and returns the identities of all of them in that order.
    pub fn create_bind_group_layouts(&mut self, bind_groups: &Vec<BindGroupDescriptor>) -> (ids: Vec<
        BindGroupDescriptorId,
    >)
        ensures
            ids@ == bind_group_ids(bind_groups@),
            final(self).render_resources.state() == with_bind_group_layouts(
                old(self).render_resources.state(),
                bind_groups@,
            ),
            final(self).render_resources.state().resources == old(
                self,
            ).render_resources.state().resources,
            final(self).render_resources.state().bind_groups == old(
                self,
            ).render_resources.state().bind_groups,
            final(self).render_resources.state().pipelines == old(
                self,
            ).render_resources.state().pipelines,
            final(self).render_resources.state().shader_modules == old(
                self,
            ).render_resources.state().shader_modules,
            forall|i: int|
                0 <= i < ids@.len() ==> final(self).render_resources.state().bind_group_layouts.contains_key(
                    #[trigger] ids@[i],
                ),
            final(self).command_encoder == old(self).command_encoder,
            final(self).primary_window == old(self).primary_window,
    {
        let ghost before = *self;
        let mut ids: Vec<BindGroupDescriptorId> = Vec::new();
        let mut i: usize = 0;
        while i < bind_groups.len()
            invariant
                i <= bind_groups@.len(),
                ids@ == bind_group_ids(bind_groups@.take(i as int)),
                self.render_resources.state() == with_bind_group_layouts(
                    before.render_resources.state(),
                    bind_groups@.take(i as int),
                ),
                forall|j: int|
                    0 <= j < ids@.len() ==> self.render_resources.state().bind_group_layouts.contains_key(
                    #[trigger] ids@[j]),
                self.command_encoder == before.command_encoder,
                self.primary_window == before.primary_window,
            decreases bind_groups@.len() - i,
        {
            let bind_group = &bind_groups[i];
            proof {
                assert(bind_groups@.take(i + 1).drop_last() == bind_groups@.take(i as int));
                assert(bind_groups@.take(i + 1) == bind_groups@.take(i as int).push(*bind_group));
            }
            if !self.render_resources.has_bind_group_layout(bind_group.id) {
                let entries = bind_group_layout_entries(bind_group);
                self.render_resources.create_bind_group_layout(bind_group.id, &entries);
            }
            ids.push(bind_group.id);
            i += 1;
        }
        proof {
            assert(bind_groups@.take(i as int) == bind_groups@);
            lemma_bind_group_layouts_frame(before.render_resources.state(), bind_groups@);
        }
        ids
    }

    /// Materializes a render pipeline and what it depends on, unless a
    /// pipeline is cached under the handle already.
    pub fn create_render_pipeline(
        &mut self,
        pipeline_handle: PipelineHandle,
        pipeline_descriptor: &PipelineDescriptor,
        shader_storage: &ShaderStorage,
    ) -> (created: Result<(), RenderError>)
        ensures
            match render_pipeline_plan(
                old(self).render_resources.state(),
                pipeline_handle,
                pipeline_descriptor,
                shader_storage@,
            ) {
                Ok(state) => created is Ok && final(self).render_resources.state() == state,
                Err(fault) => {
                    &&& created matches Err(error) && error@ == fault
                    &&& final(self).render_resources.state() == old(self).render_resources.state()
                },
            },
            final(self).render_resources.state().resources == old(
                self,
            ).render_resources.state().resources,
            final(self).render_resources.state().bind_groups == old(
                self,
            ).render_resources.state().bind_groups,
            final(self).command_encoder == old(self).command_encoder,
            final(self).primary_window == old(self).primary_window,
    {
        proof {
            if render_pipeline_plan(
                self.render_resources.state(),
                pipeline_handle,
                pipeline_descriptor,
                shader_storage@,
            ) is Ok {
                lemma_render_pipeline_frame(
                    self.render_resources.state(),
                    pipeline_handle,
                    pipeline_descriptor,
                    shader_storage@,
                );
            }
        }
        if self.render_resources.has_pipeline(pipeline_handle) {
            return Ok(());
        }
        let layout = match pipeline_descriptor.get_layout() {
            Some(layout) => layout,
            None => {
                return Err(RenderError::MissingPipelineLayout { pipeline: pipeline_handle });
            },
        };
        let vertex_handle = pipeline_descriptor.shader_stages.vertex;
        if !self.render_resources.has_shader_module(vertex_handle) && shader_storage.get(
            vertex_handle,
        ).is_none() {
            return Err(RenderError::MissingShader { shader: vertex_handle });
        }
        if let Some(fragment_handle) = pipeline_descriptor.shader_stages.fragment {
            if !self.render_resources.has_shader_module(fragment_handle) && shader_storage.get(
                fragment_handle,
            ).is_none() {
                return Err(RenderError::MissingShader { shader: fragment_handle });
            }
        }
        proof {
            lemma_bind_group_layouts_frame(self.render_resources.state(), layout.bind_groups@);
        }
        let bind_group_layouts = self.create_bind_group_layouts(&layout.bind_groups);
        let pipeline_layout = self.render_resources.create_pipeline_layout(&bind_group_layouts);

        if !self.render_resources.has_shader_module(vertex_handle) {
            match shader_storage.get(vertex_handle) {
                Some(shader) => {
                    self.render_resources.create_shader_module(vertex_handle, shader);
                },
                None => unreached(),
            }
        }
        if let Some(fragment_handle) = pipeline_descriptor.shader_stages.fragment {
            if !self.render_resources.has_shader_module(fragment_handle) {
                match shader_storage.get(fragment_handle) {
                    Some(shader) => {
                        self.render_resources.create_shader_module(fragment_handle, shader);
                    },
                    None => unreached(),
                }
            }
        }
        self.render_resources.create_render_pipeline(
            pipeline_handle,
            &pipeline_layout,
            pipeline_descriptor,
            ENTRY_POINT,
        );
        Ok(())
    }
    /// The resource cache, to change it.
    pub fn resources_mut(&mut self) -> (resources: &mut T)
        ensures
            *resources == old(self).render_resources,
            final(self).render_resources == *final(resources),
            final(self).command_encoder == old(self).command_encoder,
            final(self).primary_window == old(self).primary_window,
    {
        &mut self.render_resources
    }

    /// Creates a texture and records the upload of `bytes` into it on the
    /// active recording, which is started if there is none.
    pub fn create_texture_with_data(
        &mut self,
        texture_descriptor: &bevy_render::texture::TextureDescriptor,
        bytes: &[u8],
    ) -> (resource: RenderResource)
        ensures
            !old(self).render_resources.state().resources.contains_key(resource),
            final(self).render_resources.state() == (ResourceState {
                resources: old(self).render_resources.state().resources.insert(
                    resource,
                    ResourceInfo::Texture,
                ),
                ..old(self).render_resources.state().record(BackendObject::Texture(resource))
            }),
            final(self).command_encoder.recording() == old(
                self,
            ).command_encoder.recording().started(),
            final(self).command_encoder.commands() == old(self).command_encoder.commands().push(
                Command::WriteTexture {
                    texture: resource,
                    descriptor: *texture_descriptor,
                    bytes: bytes@,
                },
            ),
            final(self).primary_window == old(self).primary_window,
    {
        let encoder = self.command_encoder.get_or_create(&self.render_resources);
        self.render_resources.create_texture_with_data(encoder, texture_descriptor, bytes)
    }

    /// Records a copy between two materialized buffers on the active
    /// recording, which is started if there is none. The recording is
    /// started before the buffers are looked up, the source first.
    pub fn copy_buffer_to_buffer(
        &mut self,
        source_buffer: RenderResource,
        source_offset: u64,
        destination_buffer: RenderResource,
        destination_offset: u64,
        size: u64,
    ) -> (copied: Result<(), RenderError>)
        ensures
            copied == if !old(self).render_resources.state().is_buffer(source_buffer) {
                Err::<(), RenderError>(RenderError::MissingBuffer { resource: source_buffer })
            } else if !old(self).render_resources.state().is_buffer(destination_buffer) {
                Err::<(), RenderError>(RenderError::MissingBuffer { resource: destination_buffer })
            } else {
                Ok::<(), RenderError>(())
            },
            final(self).command_encoder.commands() == if copied is Ok {
                old(self).command_encoder.commands().push(
                    Command::CopyBufferToBuffer {
                        source: source_buffer,
                        source_offset,
                        destination: destination_buffer,
                        destination_offset,
                        size,
                    },
                )
            } else {
                old(self).command_encoder.commands()
            },
            final(self).render_resources == old(self).render_resources,
            final(self).command_encoder.recording() == old(
                self,
            ).command_encoder.recording().started(),
            final(self).primary_window == old(self).primary_window,
    {
        let command_encoder = self.command_encoder.get_or_create(&self.render_resources);
        match self.render_resources.get_resource_info(source_buffer) {
            Some(ResourceInfo::Buffer(_)) => {},
            _ => {
                return Err(RenderError::MissingBuffer { resource: source_buffer });
            },
        }
        match self.render_resources.get_resource_info(destination_buffer) {
            Some(ResourceInfo::Buffer(_)) => {},
            _ => {
                return Err(RenderError::MissingBuffer { resource: destination_buffer });
            },
        }
        self.render_resources.copy_buffer_to_buffer(
            command_encoder,
            source_buffer,
            source_offset,
            destination_buffer,
            destination_offset,
            size,
        );
        Ok(())
    }

    /// Runs a pass: takes the active recording out of the recorder
    /// (starting one if there is none), resolves the attachments, opens a
    /// render-pass scope over them, hands the scope to `run_pass`, closes
    /// the scope it hands back, and puts the recording back. Where an
    /// attachment does not resolve, no scope is opened and `run_pass` is
    /// not called.
    ///
    /// While the scope is open it holds the recording, and the recorder is
    /// empty: nothing can seal the recording before the scope is closed.
    /// `run_pass` gets the resource cache to look things up, and has to
    /// hand back the scope it was given.
    pub fn begin_pass<F>(
        &mut self,
        pass_descriptor: &PassDescriptor,
        render_resource_assignments: &RenderResourceAssignments,
        run_pass: F,
    ) -> (done: Result<(), RenderError>) where F: FnOnce(&T, T::RenderPass) -> T::RenderPass
        requires
            forall|pass: T::RenderPass|
                pass_attachments(
                    old(self).render_resources.state(),
                    old(self).primary_window,
                    render_resource_assignments,
                    pass_descriptor,
                ) == Ok::<_, RenderFault>(
                    (T::pass_color_attachments(&pass), T::pass_depth_stencil_attachment(&pass)),
                ) ==> call_requires(run_pass, (&old(self).render_resources, pass)),
            forall|pass: T::RenderPass, drawn: T::RenderPass|
                call_ensures(run_pass, (&old(self).render_resources, pass), drawn) ==> {
                    &&& T::pass_color_attachments(&drawn) == T::pass_color_attachments(&pass)
                    &&& T::pass_depth_stencil_attachment(&drawn)
                        == T::pass_depth_stencil_attachment(&pass)
                    &&& T::pass_commands(&drawn) == T::pass_commands(&pass)
                },
        ensures
            match pass_attachments(
                old(self).render_resources.state(),
                old(self).primary_window,
                render_resource_assignments,
                pass_descriptor,
            ) {
                Ok((color_attachments, depth_stencil_attachment)) => {
                    &&& done is Ok
                    &&& exists|pass: T::RenderPass, drawn: T::RenderPass|
                        {
                            &&& #[trigger] call_ensures(
                                run_pass,
                                (&old(self).render_resources, pass),
                                drawn,
                            )
                            &&& T::pass_color_attachments(&pass) == color_attachments
                            &&& T::pass_depth_stencil_attachment(&pass)
                                == depth_stencil_attachment
                        }
                    &&& final(self).command_encoder.commands() == old(
                        self,
                    ).command_encoder.commands().push(
                        Command::RenderPass { color_attachments, depth_stencil_attachment },
                    )
                },
                Err(fault) => {
                    &&& done matches Err(error) && error@ == fault
                    &&& final(self).command_encoder.commands() == old(
                        self,
                    ).command_encoder.commands()
                },
            },
            final(self).render_resources == old(self).render_resources,
            final(self).command_encoder.recording() == old(
                self,
            ).command_encoder.recording().started(),
            final(self).primary_window == old(self).primary_window,
    {
        if !self.command_encoder.is_some() {
            self.command_encoder.create(&self.render_resources);
        }
        let encoder = match self.command_encoder.take() {
            Some(encoder) => encoder,
            None => unreached(),
        };
        let (encoder, done) = match create_render_pass(
            self,
            pass_descriptor,
            render_resource_assignments,
            encoder,
        ) {
            Ok(render_pass) => {
                let ghost opened = render_pass;
                let render_pass = run_pass(&self.render_resources, render_pass);
                proof {
                    assert(call_ensures(run_pass, (&self.render_resources, opened), render_pass));
                }
                (self.render_resources.end_render_pass(render_pass), Ok(()))
            },
            Err((error, encoder)) => (encoder, Err(error)),
        };
        self.command_encoder.set(encoder);
        done
    }
}

} // verus!
