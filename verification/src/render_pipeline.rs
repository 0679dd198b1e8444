//! What materializing a render pipeline does to a resource cache: bind-group
//! layouts first, then the pipeline layout, the shader modules and the
//! pipeline.

use crate::backend::{BackendObject, PipelineRecord, ResourceState};
use crate::error::RenderFault;
use crate::pipeline::{layout_entries, BindGroupDescriptor, PipelineDescriptor};
use crate::resource::{BindGroupDescriptorId, PipelineHandle, ShaderHandle};
use crate::shader::Shader;
use vstd::prelude::*;

verus! {

/// The cache after the layout of every listed bind group that was missing
/// has been created, first to last.
pub open spec fn with_bind_group_layouts(
    state: ResourceState,
    bind_groups: Seq<BindGroupDescriptor>,
) -> ResourceState
    decreases bind_groups.len(),
{
    if bind_groups.len() == 0 {
        state
    } else {
        let before = with_bind_group_layouts(state, bind_groups.drop_last());
        let bind_group = bind_groups.last();
        if before.bind_group_layouts.contains_key(bind_group.id) {
            before
        } else {
            ResourceState {
                bind_group_layouts: before.bind_group_layouts.insert(
                    bind_group.id,
                    layout_entries(bind_group.bindings@),
                ),
                ..before.record(BackendObject::BindGroupLayout(bind_group.id))
            }
        }
    }
}

/// Creating bind-group layouts touches nothing but the layouts and the
/// record of created objects.
pub proof fn lemma_bind_group_layouts_frame(
    state: ResourceState,
    bind_groups: Seq<BindGroupDescriptor>,
)
    ensures
        ({
            let after = with_bind_group_layouts(state, bind_groups);
            &&& after.resources == state.resources
            &&& after.swap_chain_outputs == state.swap_chain_outputs
            &&& after.bind_groups == state.bind_groups
            &&& after.shader_modules == state.shader_modules
            &&& after.pipelines == state.pipelines
            &&& state.bind_group_layouts.submap_of(after.bind_group_layouts)
            &&& state.created.is_prefix_of(after.created)
        }),
    decreases bind_groups.len(),
{
    if bind_groups.len() > 0 {
        lemma_bind_group_layouts_frame(state, bind_groups.drop_last());
        let before = with_bind_group_layouts(state, bind_groups.drop_last());
        let after = with_bind_group_layouts(state, bind_groups);
        let id = bind_groups.last().id;
        if !before.bind_group_layouts.contains_key(id) {
            assert(after.created == before.created.push(BackendObject::BindGroupLayout(id)));
            assert(state.created.len() <= before.created.len());
            assert(state.created == before.created.subrange(0, state.created.len() as int));
            assert forall|i: int| 0 <= i < state.created.len() implies state.created[i]
                == after.created[i] by {
                assert(before.created.subrange(0, state.created.len() as int)[i]
                    == before.created[i]);
            }
            assert(state.created =~= after.created.subrange(0, state.created.len() as int));
            assert forall|key: BindGroupDescriptorId|
                state.bind_group_layouts.dom().contains(key) implies {
                &&& #[trigger] after.bind_group_layouts.dom().contains(key)
                &&& state.bind_group_layouts[key] == after.bind_group_layouts[key]
            } by {
                assert(before.bind_group_layouts.dom().contains(key));
            }
        }
    } else {
        assert(state.created =~= state.created.subrange(0, state.created.len() as int));
    }
}

/// The cache after the module of a shader has been created, if it was missing.
pub open spec fn with_shader_module(state: ResourceState, shader: ShaderHandle) -> ResourceState {
    if state.shader_modules.contains(shader) {
        state
    } else {
        ResourceState {
            shader_modules: state.shader_modules.insert(shader),
            ..state.record(BackendObject::ShaderModule(shader))
        }
    }
}

/// The entry symbol of every shader stage.
pub const ENTRY_POINT: &'static str = "main";

/// The identities of bind groups, in order.
pub open spec fn bind_group_ids(bind_groups: Seq<BindGroupDescriptor>) -> Seq<
    BindGroupDescriptorId,
> {
    bind_groups.map_values(|bind_group: BindGroupDescriptor| bind_group.id)
}

/// The cache after a render pipeline has been asked for, or why it cannot
/// be created. A cached pipeline leaves the cache as it is. Otherwise the
/// missing bind-group layouts are created in the order of the description,
/// then the pipeline layout, the missing vertex and fragment modules, and
/// the pipeline itself.
pub open spec fn render_pipeline_plan(
    state: ResourceState,
    pipeline: PipelineHandle,
    descriptor: &PipelineDescriptor,
    shaders: Map<ShaderHandle, Shader>,
) -> Result<ResourceState, RenderFault> {
    let stages = descriptor.shader_stages;
    if state.pipelines.contains_key(pipeline) {
        Ok(state)
    } else if descriptor.layout is None {
        Err(RenderFault::MissingPipelineLayout { pipeline })
    } else if !state.shader_modules.contains(stages.vertex) && !shaders.contains_key(
        stages.vertex,
    ) {
        Err(RenderFault::MissingShader { shader: stages.vertex })
    } else if stages.fragment is Some && !state.shader_modules.contains(stages.fragment->Some_0)
        && !shaders.contains_key(stages.fragment->Some_0) {
        Err(RenderFault::MissingShader { shader: stages.fragment->Some_0 })
    } else {
        let bind_groups = descriptor.layout->Some_0.bind_groups@;
        let with_layouts = with_bind_group_layouts(state, bind_groups).record(
            BackendObject::PipelineLayout,
        );
        let with_vertex = with_shader_module(with_layouts, stages.vertex);
        let with_modules = match stages.fragment {
            Some(fragment) => with_shader_module(with_vertex, fragment),
            None => with_vertex,
        };
        Ok(
            ResourceState {
                pipelines: with_modules.pipelines.insert(
                    pipeline,
                    PipelineRecord {
                        bind_group_layouts: bind_group_ids(bind_groups),
                        descriptor: *descriptor,
                        entry_point: ENTRY_POINT@,
                    },
                ),
                ..with_modules.record(BackendObject::RenderPipeline(pipeline))
            },
        )
    }
}

/// Materializing a pipeline leaves the resources, the swap-chain outputs
/// and the bind groups of the cache as they are, and keeps what was cached
/// and created before.
pub proof fn lemma_render_pipeline_frame(
    state: ResourceState,
    pipeline: PipelineHandle,
    descriptor: &PipelineDescriptor,
    shaders: Map<ShaderHandle, Shader>,
)
    requires
        render_pipeline_plan(state, pipeline, descriptor, shaders) is Ok,
    ensures
        ({
            let after = render_pipeline_plan(state, pipeline, descriptor, shaders)->Ok_0;
            &&& after.resources == state.resources
            &&& after.swap_chain_outputs == state.swap_chain_outputs
            &&& after.bind_groups == state.bind_groups
            &&& state.bind_group_layouts.submap_of(after.bind_group_layouts)
            &&& state.shader_modules.subset_of(after.shader_modules)
            &&& state.pipelines.submap_of(after.pipelines)
            &&& state.created.is_prefix_of(after.created)
        }),
{
    if !state.pipelines.contains_key(pipeline) {
        lemma_bind_group_layouts_frame(state, descriptor.layout->Some_0.bind_groups@);
    }
}

} // verus!
