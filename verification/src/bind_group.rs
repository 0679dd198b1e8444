//! What a bind group is made of: the resolution of each declared binding
//! to an assigned, materialized resource of the declared kind.

use crate::assignments::RenderResourceAssignments;
use crate::backend::ResourceState;
use crate::error::RenderFault;
use crate::pipeline::{BindGroupDescriptor, BindType, Binding, BindingDescriptor, BindingResource};
use crate::resource::{RenderResource, RenderResourceSetId, ResourceInfo, ResourceKind};
use vstd::prelude::*;

verus! {

/// What a declared binding resolves to under the given assignments and
/// materialized resources, or why it does not resolve.
pub open spec fn resolved_binding(
    binding: BindingDescriptor,
    assignments: &RenderResourceAssignments,
    resources: Map<RenderResource, ResourceInfo>,
) -> Result<Binding, RenderFault> {
    if !assignments.resources().contains_key(binding.name@) {
        Err(RenderFault::UnassignedBinding { name: binding.name@, assignments: assignments.id })
    } else {
        let resource = assignments.resources()[binding.name@];
        if !resources.contains_key(resource) {
            Err(RenderFault::MissingResource { name: binding.name@, resource })
        } else {
            let info = resources[resource];
            match binding.bind_type {
                BindType::SampledTexture { .. } => match info {
                    ResourceInfo::Texture => Ok(
                        Binding {
                            binding: binding.index,
                            resource: BindingResource::TextureView(resource),
                        },
                    ),
                    _ => Err(
                        RenderFault::WrongResourceKind {
                            name: binding.name@,
                            expected: ResourceKind::Texture,
                            actual: info.kind(),
                        },
                    ),
                },
                BindType::Sampler { .. } => match info {
                    ResourceInfo::Sampler => Ok(
                        Binding {
                            binding: binding.index,
                            resource: BindingResource::Sampler(resource),
                        },
                    ),
                    _ => Err(
                        RenderFault::WrongResourceKind {
                            name: binding.name@,
                            expected: ResourceKind::Sampler,
                            actual: info.kind(),
                        },
                    ),
                },
                BindType::Uniform { .. } => match info {
                    ResourceInfo::Buffer(buffer_info) => Ok(
                        Binding {
                            binding: binding.index,
                            resource: BindingResource::Buffer {
                                buffer: resource,
                                start: 0,
                                end: buffer_info.size,
                            },
                        },
                    ),
                    _ => Err(
                        RenderFault::WrongResourceKind {
                            name: binding.name@,
                            expected: ResourceKind::Buffer,
                            actual: info.kind(),
                        },
                    ),
                },
                _ => Err(RenderFault::UnsupportedBindType { name: binding.name@ }),
            }
        }
    }
}

/// The bindings of a bind group, resolved in declaration order; the fault
/// of the first binding that does not resolve, if there is one.
pub open spec fn resolved_bindings(
    bindings: Seq<BindingDescriptor>,
    assignments: &RenderResourceAssignments,
    resources: Map<RenderResource, ResourceInfo>,
) -> Result<Seq<Binding>, RenderFault>
    decreases bindings.len(),
{
    if bindings.len() == 0 {
        Ok(Seq::empty())
    } else {
        match resolved_bindings(bindings.drop_last(), assignments, resources) {
            Err(fault) => Err(fault),
            Ok(resolved) => match resolved_binding(bindings.last(), assignments, resources) {
                Ok(binding) => Ok(resolved.push(binding)),
                Err(fault) => Err(fault),
            },
        }
    }
}

/// What creating a bind group has to do: nothing (`Ok(None)`) where no
/// resource set is assigned to the layout yet or the bind group is cached
/// already; else create it under a set id with the resolved bindings, or
/// fail.
pub open spec fn bind_group_plan(
    state: ResourceState,
    bind_group: &BindGroupDescriptor,
    assignments: &RenderResourceAssignments,
) -> Result<Option<(RenderResourceSetId, Seq<Binding>)>, RenderFault> {
    if !assignments.resource_sets().contains_key(bind_group.id) {
        Ok(None)
    } else {
        let set = assignments.resource_sets()[bind_group.id];
        if state.bind_groups.contains_key((bind_group.id, set)) {
            Ok(None)
        } else {
            match resolved_bindings(bind_group.bindings@, assignments, state.resources) {
                Err(fault) => Err(fault),
                Ok(bindings) => if state.bind_group_layouts.contains_key(bind_group.id) {
                    Ok(Some((set, bindings)))
                } else {
                    Err(RenderFault::MissingBindGroupLayout { bind_group: bind_group.id })
                },
            }
        }
    }
}

/// A fault met in a prefix of the bindings is the fault of the whole.
pub proof fn lemma_fault_in_prefix(
    bindings: Seq<BindingDescriptor>,
    assignments: &RenderResourceAssignments,
    resources: Map<RenderResource, ResourceInfo>,
    n: int,
)
    requires
        0 <= n <= bindings.len(),
        resolved_bindings(bindings.take(n), assignments, resources) is Err,
    ensures
        resolved_bindings(bindings, assignments, resources) == resolved_bindings(
            bindings.take(n),
            assignments,
            resources,
        ),
    decreases bindings.len() - n,
{
    if n < bindings.len() {
        assert(bindings.take(n + 1).drop_last() == bindings.take(n));
        lemma_fault_in_prefix(bindings, assignments, resources, n + 1);
    } else {
        assert(bindings.take(n) == bindings);
    }
}

/// Where all bindings resolve, there is one resolved binding per declared
/// binding, at the same place.
pub proof fn lemma_resolved_bindings_in_order(
    bindings: Seq<BindingDescriptor>,
    assignments: &RenderResourceAssignments,
    resources: Map<RenderResource, ResourceInfo>,
)
    requires
        resolved_bindings(bindings, assignments, resources) is Ok,
    ensures
        ({
            let resolved = resolved_bindings(bindings, assignments, resources)->Ok_0;
            &&& resolved.len() == bindings.len()
            &&& forall|i: int|
                0 <= i < resolved.len() ==> resolved_binding(bindings[i], assignments, resources)
                    == Ok::<Binding, RenderFault>(#[trigger] resolved[i])
        }),
    decreases bindings.len(),
{
    if bindings.len() > 0 {
        lemma_resolved_bindings_in_order(bindings.drop_last(), assignments, resources);
    }
}

/// Every resolved binding refers to a materialized resource of its kind.
pub proof fn lemma_resolved_bindings_admitted(
    state: ResourceState,
    bindings: Seq<BindingDescriptor>,
    assignments: &RenderResourceAssignments,
)
    requires
        resolved_bindings(bindings, assignments, state.resources) is Ok,
    ensures
        ({
            let resolved = resolved_bindings(bindings, assignments, state.resources)->Ok_0;
            &&& resolved.len() == bindings.len()
            &&& forall|i: int|
                0 <= i < resolved.len() ==> {
                    &&& resolved_binding(bindings[i], assignments, state.resources) == Ok::<
                        Binding,
                        RenderFault,
                    >(#[trigger] resolved[i])
                    &&& state.admits_binding(resolved[i])
                }
        }),
    decreases bindings.len(),
{
    if bindings.len() > 0 {
        lemma_resolved_bindings_admitted(state, bindings.drop_last(), assignments);
    }
}

} // verus!
