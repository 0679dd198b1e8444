//! Named resource assignments: which logical resource each binding or
//! attachment name stands for, and the resource-set id under which the
//! assignments made for a bind-group layout are cached.

use crate::registry::Registry;
use crate::resource::{
    BindGroupDescriptorId, RenderResource, RenderResourceAssignmentsId, RenderResourceSetId,
};
use vstd::prelude::*;

verus! {

pub struct RenderResourceAssignments {
    pub id: RenderResourceAssignmentsId,
    pub render_resources: Registry<String, RenderResource>,
    pub bind_group_resource_sets: Registry<BindGroupDescriptorId, RenderResourceSetId>,
}

impl RenderResourceAssignments {
    /// The resource assigned to each name.
    pub open spec fn resources(&self) -> Map<Seq<char>, RenderResource> {
        self.render_resources@
    }

    /// The resource-set id recorded for each bind-group layout.
    pub open spec fn resource_sets(&self) -> Map<BindGroupDescriptorId, RenderResourceSetId> {
        self.bind_group_resource_sets@
    }

    /// Assignments with no names and no resource sets.
    pub fn new(id: RenderResourceAssignmentsId) -> (assignments: Self)
        ensures
            assignments.id == id,
            assignments.resources() == Map::<Seq<char>, RenderResource>::empty(),
            assignments.resource_sets() == Map::<
                BindGroupDescriptorId,
                RenderResourceSetId,
            >::empty(),
    {
        RenderResourceAssignments {
            id,
            render_resources: Registry::new(),
            bind_group_resource_sets: Registry::new(),
        }
    }

    /// The resource assigned to `name`, if any.
    pub fn get(&self, name: &str) -> (resource: Option<RenderResource>)
        ensures
            resource == if self.resources().contains_key(name@) {
                Some(self.resources()[name@])
            } else {
                None
            },
    {
        let key = name.to_owned();
        match self.render_resources.get(&key) {
            Some(resource) => Some(*resource),
            None => None,
        }
    }

    /// Whether assigning `resource` to `name` changes what the name stands for.
    pub open spec fn reassigns(&self, name: Seq<char>, resource: RenderResource) -> bool {
        self.resources().contains_key(name) && self.resources()[name] != resource
    }

    /// Assigns `resource` to `name`, in place of what was assigned before.
    /// Where that changes what the name stands for, the recorded
    /// resource-set ids no longer describe the assignments, and all of them
    /// are dropped.
    pub fn set(&mut self, name: &str, resource: RenderResource)
        ensures
            final(self).id == old(self).id,
            final(self).resources() == old(self).resources().insert(name@, resource),
            final(self).resource_sets() == if old(self).reassigns(name@, resource) {
                Map::<BindGroupDescriptorId, RenderResourceSetId>::empty()
            } else {
                old(self).resource_sets()
            },
    {
        let key = name.to_owned();
        let reassigned = match self.render_resources.get(&key) {
            Some(current) => current.0 != resource.0,
            None => false,
        };
        if reassigned {
            self.bind_group_resource_sets = Registry::new();
        }
        self.render_resources.insert(key, resource);
    }

    /// The resource-set id recorded for a bind-group layout, if any.
    pub fn get_render_resource_set_id(&self, bind_group: BindGroupDescriptorId) -> (set: Option<
        RenderResourceSetId,
    >)
        ensures
            set == if self.resource_sets().contains_key(bind_group) {
                Some(self.resource_sets()[bind_group])
            } else {
                None
            },
    {
        match self.bind_group_resource_sets.get(&bind_group) {
            Some(set) => Some(*set),
            None => None,
        }
    }

    /// Records the resource-set id that stands for the current assignments
    /// of a bind-group layout.
    pub fn set_render_resource_set_id(
        &mut self,
        bind_group: BindGroupDescriptorId,
        set: RenderResourceSetId,
    )
        ensures
            final(self).id == old(self).id,
            final(self).resources() == old(self).resources(),
            final(self).resource_sets() == old(self).resource_sets().insert(bind_group, set),
    {
        self.bind_group_resource_sets.insert(bind_group, set);
    }
}

} // verus!
