//! What holds of the materializers and the recorder on every input.

use crate::assignments::RenderResourceAssignments;
use crate::attachments::{texture_view, SWAP_CHAIN};
use crate::backend::{BackendObject, ResourceState};
use crate::bind_group::{
    bind_group_plan, lemma_resolved_bindings_admitted, lemma_resolved_bindings_in_order,
    resolved_binding, resolved_bindings,
};
use crate::encoder::Recording;
use crate::error::RenderFault;
use crate::pass::TextureView;
use crate::pipeline::{
    BindGroupDescriptor, BindType, Binding, BindingDescriptor, PipelineDescriptor,
};
use crate::render_pipeline::{
    bind_group_ids, lemma_bind_group_layouts_frame, render_pipeline_plan,
    with_bind_group_layouts, with_shader_module, ENTRY_POINT,
};
use crate::resource::{
    PipelineHandle, RenderResource, RenderResourceSetId, ResourceInfo, ResourceKind,
    ShaderHandle, WindowId,
};
use crate::shader::Shader;
use vstd::prelude::*;

verus! {

/// How often an object occurs in a record of created objects.
pub open spec fn times_created(created: Seq<BackendObject>, object: BackendObject) -> nat
    decreases created.len(),
{
    if created.len() == 0 {
        0
    } else {
        times_created(created.drop_last(), object) + if created.last() == object {
            1nat
        } else {
            0nat
        }
    }
}

/// Recording one more object adds one occurrence of that object and none
/// of any other.
pub proof fn lemma_times_created_record(
    state: ResourceState,
    recorded: BackendObject,
    object: BackendObject,
)
    ensures
        times_created(state.record(recorded).created, object) == times_created(
            state.created,
            object,
        ) + if recorded == object {
            1nat
        } else {
            0nat
        },
{
    assert(state.created.push(recorded).drop_last() == state.created);
}

/// Materializing bind-group layouts creates nothing but bind-group
/// layouts, and none for a layout that is cached.
pub proof fn lemma_layouts_create_only_missing_layouts(
    state: ResourceState,
    bind_groups: Seq<BindGroupDescriptor>,
    object: BackendObject,
)
    requires
        object matches BackendObject::BindGroupLayout(id)
            ==> state.bind_group_layouts.contains_key(id),
    ensures
        times_created(with_bind_group_layouts(state, bind_groups).created, object)
            == times_created(state.created, object),
    decreases bind_groups.len(),
{
    if bind_groups.len() > 0 {
        let before = with_bind_group_layouts(state, bind_groups.drop_last());
        lemma_layouts_create_only_missing_layouts(state, bind_groups.drop_last(), object);
        lemma_bind_group_layouts_frame(state, bind_groups.drop_last());
        lemma_times_created_record(
            before,
            BackendObject::BindGroupLayout(bind_groups.last().id),
            object,
        );
    }
}

/// After its layouts were materialized, every bind group of the list has a
/// cached layout.
pub proof fn lemma_layouts_materialized(state: ResourceState, bind_groups: Seq<BindGroupDescriptor>)
    ensures
        forall|i: int|
            0 <= i < bind_groups.len() ==> with_bind_group_layouts(
                state,
                bind_groups,
            ).bind_group_layouts.contains_key(#[trigger] bind_groups[i].id),
        forall|id|
            state.bind_group_layouts.contains_key(id) ==> with_bind_group_layouts(
                state,
                bind_groups,
            ).bind_group_layouts.contains_key(id),
    decreases bind_groups.len(),
{
    if bind_groups.len() > 0 {
        lemma_layouts_materialized(state, bind_groups.drop_last());
        assert forall|i: int| 0 <= i < bind_groups.len() implies with_bind_group_layouts(
            state,
            bind_groups,
        ).bind_group_layouts.contains_key(#[trigger] bind_groups[i].id) by {
            if i < bind_groups.len() - 1 {
                assert(bind_groups.drop_last()[i] == bind_groups[i]);
            }
        }
    }
}

/// Pipelines are materialized once. Where a pipeline can be created, it is
/// cached afterwards, a second request with the same handle and description
/// leaves the cache as the first left it, and over both requests exactly
/// one pipeline object is created for the handle if none was cached before,
/// and none otherwise.
pub proof fn law_pipeline_materialized_once(
    state: ResourceState,
    pipeline: PipelineHandle,
    descriptor: &PipelineDescriptor,
    shaders: Map<ShaderHandle, Shader>,
)
    requires
        render_pipeline_plan(state, pipeline, descriptor, shaders) is Ok,
    ensures
        ({
            let first = render_pipeline_plan(state, pipeline, descriptor, shaders)->Ok_0;
            let second = render_pipeline_plan(first, pipeline, descriptor, shaders);
            let object = BackendObject::RenderPipeline(pipeline);
            &&& first.pipelines.contains_key(pipeline)
            &&& second == Ok::<ResourceState, RenderFault>(first)
            &&& times_created(first.created, object) == times_created(state.created, object)
                + if state.pipelines.contains_key(pipeline) {
                0nat
            } else {
                1nat
            }
        }),
{
    if !state.pipelines.contains_key(pipeline) {
        let object = BackendObject::RenderPipeline(pipeline);
        let stages = descriptor.shader_stages;
        let bind_groups = descriptor.layout->Some_0.bind_groups@;
        let with_groups = with_bind_group_layouts(state, bind_groups);
        let with_layouts = with_groups.record(BackendObject::PipelineLayout);
        let with_vertex = with_shader_module(with_layouts, stages.vertex);
        let with_modules = match stages.fragment {
            Some(fragment) => with_shader_module(with_vertex, fragment),
            None => with_vertex,
        };
        lemma_layouts_create_only_missing_layouts(state, bind_groups, object);
        lemma_times_created_record(with_groups, BackendObject::PipelineLayout, object);
        lemma_times_created_record(with_layouts, BackendObject::ShaderModule(stages.vertex), object);
        if let Some(fragment) = stages.fragment {
            lemma_times_created_record(with_vertex, BackendObject::ShaderModule(fragment), object);
        }
        lemma_times_created_record(with_modules, object, object);
    }
}

/// A pipeline is created after what it depends on. Where a pipeline is
/// newly created, the layout of each of its bind groups and the module of
/// each of its shader stages are cached, the pipeline is the last object
/// created, and it is cached with its bind groups in declaration order.
pub proof fn law_pipeline_dependencies_materialized(
    state: ResourceState,
    pipeline: PipelineHandle,
    descriptor: &PipelineDescriptor,
    shaders: Map<ShaderHandle, Shader>,
)
    requires
        render_pipeline_plan(state, pipeline, descriptor, shaders) is Ok,
        !state.pipelines.contains_key(pipeline),
    ensures
        ({
            let after = render_pipeline_plan(state, pipeline, descriptor, shaders)->Ok_0;
            let bind_groups = descriptor.layout->Some_0.bind_groups@;
            &&& descriptor.layout is Some
            &&& forall|i: int|
                0 <= i < bind_groups.len() ==> after.bind_group_layouts.contains_key(
                    #[trigger] bind_groups[i].id,
                )
            &&& after.shader_modules.contains(descriptor.shader_stages.vertex)
            &&& descriptor.shader_stages.fragment matches Some(fragment)
                ==> after.shader_modules.contains(fragment)
            &&& after.created.len() > 0
            &&& after.created.last() == BackendObject::RenderPipeline(pipeline)
            &&& after.pipelines[pipeline].bind_group_layouts == bind_group_ids(bind_groups)
            &&& after.pipelines[pipeline].descriptor == *descriptor
            &&& after.pipelines[pipeline].entry_point == ENTRY_POINT@
        }),
{
    let bind_groups = descriptor.layout->Some_0.bind_groups@;
    lemma_layouts_materialized(state, bind_groups);
}

/// A bind-group layout is shared. Materializing the layouts of a list of
/// bind groups creates no layout object for an identity that is cached.
pub proof fn law_bind_group_layout_reused(
    state: ResourceState,
    bind_groups: Seq<BindGroupDescriptor>,
    i: int,
)
    requires
        0 <= i < bind_groups.len(),
        state.bind_group_layouts.contains_key(bind_groups[i].id),
    ensures
        ({
            let after = with_bind_group_layouts(state, bind_groups);
            let object = BackendObject::BindGroupLayout(bind_groups[i].id);
            &&& times_created(after.created, object) == times_created(state.created, object)
            &&& after.bind_group_layouts[bind_groups[i].id]
                == state.bind_group_layouts[bind_groups[i].id]
        }),
{
    lemma_layouts_create_only_missing_layouts(
        state,
        bind_groups,
        BackendObject::BindGroupLayout(bind_groups[i].id),
    );
    lemma_bind_group_layouts_frame(state, bind_groups);
    let after = with_bind_group_layouts(state, bind_groups);
    assert(state.bind_group_layouts.submap_of(after.bind_group_layouts));
    let id = bind_groups[i].id;
    assert(state.bind_group_layouts.dom().contains(id));
    assert(after.bind_group_layouts.dom().contains(id) && state.bind_group_layouts[id]
        == after.bind_group_layouts[id]);
    assert(times_created(after.created, BackendObject::BindGroupLayout(id)) == times_created(
        state.created,
        BackendObject::BindGroupLayout(id),
    ));
}

/// Bind groups are created once per layout and resource set. Where a bind
/// group is created, a second request with the same layout and assignments
/// finds it cached: there is nothing to do, and the bindings it was created
/// with stay as they are.
pub proof fn law_bind_group_created_once(
    state: ResourceState,
    bind_group: &BindGroupDescriptor,
    assignments: &RenderResourceAssignments,
)
    requires
        bind_group_plan(state, bind_group, assignments) matches Ok(Some(_)),
    ensures
        ({
            let (set, bindings) = bind_group_plan(state, bind_group, assignments)->Ok_0->Some_0;
            let object = BackendObject::BindGroup(bind_group.id, set);
            let first = ResourceState {
                bind_groups: state.bind_groups.insert((bind_group.id, set), bindings),
                ..state.record(object)
            };
            &&& assignments.resource_sets()[bind_group.id] == set
            &&& !state.bind_groups.contains_key((bind_group.id, set))
            &&& bind_group_plan(first, bind_group, assignments) == Ok::<
                Option<(RenderResourceSetId, Seq<Binding>)>,
                RenderFault,
            >(None)
            &&& first.bind_groups[(bind_group.id, set)] == bindings
            &&& times_created(first.created, object) == times_created(state.created, object) + 1
        }),
{
    let (set, _bindings) = bind_group_plan(state, bind_group, assignments)->Ok_0->Some_0;
    lemma_times_created_record(
        state,
        BackendObject::BindGroup(bind_group.id, set),
        BackendObject::BindGroup(bind_group.id, set),
    );
}

/// A cached bind group is never created again: whatever else the cache
/// holds, a request for a layout and resource set that are cached has
/// nothing to do.
pub proof fn law_cached_bind_group_is_reused(
    state: ResourceState,
    bind_group: &BindGroupDescriptor,
    assignments: &RenderResourceAssignments,
)
    requires
        assignments.resource_sets().contains_key(bind_group.id),
        state.bind_groups.contains_key(
            (bind_group.id, assignments.resource_sets()[bind_group.id]),
        ),
    ensures
        bind_group_plan(state, bind_group, assignments) == Ok::<
            Option<(RenderResourceSetId, Seq<Binding>)>,
            RenderFault,
        >(None),
{
}

/// A binding that does not resolve is fatal. Where a bind group is due
/// (a resource set is assigned to its layout and no bind group is cached
/// for it) and one of its bindings does not resolve, no bind group is
/// planned: the request fails.
pub proof fn law_unresolved_binding_is_fatal(
    state: ResourceState,
    bind_group: &BindGroupDescriptor,
    assignments: &RenderResourceAssignments,
    i: int,
)
    requires
        assignments.resource_sets().contains_key(bind_group.id),
        !state.bind_groups.contains_key(
            (bind_group.id, assignments.resource_sets()[bind_group.id]),
        ),
        0 <= i < bind_group.bindings@.len(),
        resolved_binding(bind_group.bindings@[i], assignments, state.resources) is Err,
    ensures
        bind_group_plan(state, bind_group, assignments) is Err,
{
    let bindings = bind_group.bindings@;
    if resolved_bindings(bindings, assignments, state.resources) is Ok {
        lemma_resolved_bindings_admitted(state, bindings, assignments);
        let resolved = resolved_bindings(bindings, assignments, state.resources)->Ok_0;
        assert(resolved_binding(bindings[i], assignments, state.resources) == Ok::<
            Binding,
            RenderFault,
        >(resolved[i]));
    }
}

/// Bindings are resolved in declaration order. Where the bindings of a bind
/// group do not all resolve, the fault reported is that of the first
/// binding that does not resolve.
pub proof fn law_first_unresolved_binding_is_reported(
    bindings: Seq<BindingDescriptor>,
    assignments: &RenderResourceAssignments,
    resources: Map<RenderResource, ResourceInfo>,
) -> (first: int)
    requires
        resolved_bindings(bindings, assignments, resources) is Err,
    ensures
        0 <= first < bindings.len(),
        resolved_binding(bindings[first], assignments, resources) is Err,
        resolved_binding(bindings[first], assignments, resources)->Err_0 == resolved_bindings(
            bindings,
            assignments,
            resources,
        )->Err_0,
        forall|i: int|
            0 <= i < first ==> (#[trigger] resolved_binding(
                bindings[i],
                assignments,
                resources,
            )) is Ok,
    decreases bindings.len(),
{
    let earlier = bindings.drop_last();
    if resolved_bindings(earlier, assignments, resources) is Err {
        let first = law_first_unresolved_binding_is_reported(earlier, assignments, resources);
        assert forall|i: int| 0 <= i <= first implies earlier[i] == bindings[i] by {}
        first
    } else {
        lemma_resolved_bindings_in_order(earlier, assignments, resources);
        let resolved = resolved_bindings(earlier, assignments, resources)->Ok_0;
        assert forall|i: int| 0 <= i < bindings.len() - 1 implies (#[trigger] resolved_binding(
            bindings[i],
            assignments,
            resources,
        )) is Ok by {
            assert(earlier[i] == bindings[i]);
            assert(resolved_binding(earlier[i], assignments, resources) == Ok::<
                Binding,
                RenderFault,
            >(resolved[i]));
        }
        bindings.len() - 1
    }
}

/// The kind of a resource is checked against the kind its binding
/// declares. A buffer assigned to a sampler binding, a resource that is no
/// texture assigned to a sampled-texture binding, and a resource that is no
/// buffer assigned to a uniform binding are each a fault that names the
/// binding, the kind expected and the kind found.
pub proof fn law_kind_is_validated(
    binding: BindingDescriptor,
    assignments: &RenderResourceAssignments,
    resources: Map<RenderResource, ResourceInfo>,
)
    requires
        assignments.resources().contains_key(binding.name@),
        resources.contains_key(assignments.resources()[binding.name@]),
    ensures
        ({
            let info = resources[assignments.resources()[binding.name@]];
            let expected = match binding.bind_type {
                BindType::Uniform { .. } => Some(ResourceKind::Buffer),
                BindType::Sampler { .. } => Some(ResourceKind::Sampler),
                BindType::SampledTexture { .. } => Some(ResourceKind::Texture),
                _ => None,
            };
            match expected {
                Some(kind) => if info.kind() == kind {
                    resolved_binding(binding, assignments, resources) is Ok
                } else {
                    resolved_binding(binding, assignments, resources) == Err::<
                        Binding,
                        RenderFault,
                    >(
                        RenderFault::WrongResourceKind {
                            name: binding.name@,
                            expected: kind,
                            actual: info.kind(),
                        },
                    )
                },
                None => resolved_binding(binding, assignments, resources) == Err::<
                    Binding,
                    RenderFault,
                >(RenderFault::UnsupportedBindType { name: binding.name@ }),
            }
        }),
{
}

/// A planned bind group is complete: each of its bindings is the
/// resolution of the declared binding at the same place, and refers to a
/// materialized resource of the declared kind.
pub proof fn law_bind_group_is_complete(
    state: ResourceState,
    bind_group: &BindGroupDescriptor,
    assignments: &RenderResourceAssignments,
)
    requires
        bind_group_plan(state, bind_group, assignments) matches Ok(Some(_)),
    ensures
        ({
            let (_set, bindings) = bind_group_plan(state, bind_group, assignments)->Ok_0->Some_0;
            &&& bindings.len() == bind_group.bindings@.len()
            &&& state.bind_group_layouts.contains_key(bind_group.id)
            &&& forall|i: int|
                0 <= i < bindings.len() ==> {
                    &&& resolved_binding(bind_group.bindings@[i], assignments, state.resources)
                        == Ok::<Binding, RenderFault>(#[trigger] bindings[i])
                    &&& state.admits_binding(bindings[i])
                }
        }),
{
    lemma_resolved_bindings_admitted(state, bind_group.bindings@, assignments);
}

/// The recorder holds one recording at a time. After a recording was
/// asked for and then sealed, the recorder is empty; asking again starts a
/// new recording on the device, and the recorder is active again.
pub proof fn law_recorder_single_slot(recording: Recording)
    ensures
        recording.started().active,
        !recording.started().taken().active,
        recording.started().taken().started().active,
        recording.started().taken().started().created == recording.started().created + 1,
        recording.started().started() == recording.started(),
{
}

/// The reserved attachment name stands for the swap chain of the primary
/// window and for nothing else; every other name goes through the
/// assignments, and a name that is not assigned is a fault.
pub proof fn law_attachment_resolution(
    state: ResourceState,
    primary_window: Option<WindowId>,
    assignments: &RenderResourceAssignments,
    name: Seq<char>,
)
    ensures
        name == SWAP_CHAIN@ ==> (match texture_view(state, primary_window, assignments, name) {
            Ok(view) => primary_window matches Some(window) && view
                == TextureView::SwapChainOutput(window) && state.swap_chain_outputs.contains(
                window,
            ),
            Err(fault) => match primary_window {
                None => fault == RenderFault::MissingPrimaryWindow,
                Some(window) => fault == (RenderFault::MissingSwapChainOutput { window })
                    && !state.swap_chain_outputs.contains(window),
            },
        }),
        name != SWAP_CHAIN@ ==> (match texture_view(state, primary_window, assignments, name) {
            Ok(view) => assignments.resources().contains_key(name) && view
                == TextureView::Texture(assignments.resources()[name]) && state.has_view(view),
            Err(fault) => if assignments.resources().contains_key(name) {
                fault == (RenderFault::MissingTexture {
                    name,
                    resource: assignments.resources()[name],
                })
            } else {
                fault == (RenderFault::UnassignedAttachment { name })
            },
        }),
{
}

} // verus!
