//! Logical identities and the kinds of materialized resources.

use crate::registry::Key;
use vstd::prelude::*;

verus! {

/// Logical handle of a buffer, texture or sampler.
#[derive(Clone, Copy, Debug, PartialEq, Eq, Structural, Hash)]
pub struct RenderResource(pub u64);

/// Identity of a bind-group layout, derived from its bindings.
#[derive(Clone, Copy, Debug, PartialEq, Eq, Structural, Hash)]
pub struct BindGroupDescriptorId(pub u64);

/// Identity of one snapshot of resource assignments for a bind group.
#[derive(Clone, Copy, Debug, PartialEq, Eq, Structural, Hash)]
pub struct RenderResourceSetId(pub u64);

/// Identity of a set of resource assignments.
#[derive(Clone, Copy, Debug, PartialEq, Eq, Structural, Hash)]
pub struct RenderResourceAssignmentsId(pub u64);

/// Logical handle of a pipeline description.
#[derive(Clone, Copy, Debug, PartialEq, Eq, Structural, Hash)]
pub struct PipelineHandle(pub u128);

/// Logical handle of a shader asset.
#[derive(Clone, Copy, Debug, PartialEq, Eq, Structural, Hash)]
pub struct ShaderHandle(pub u128);

/// Identity of a window.
#[derive(Clone, Copy, Debug, PartialEq, Eq, Structural, Hash)]
pub struct WindowId(pub u128);

/// What is known of a materialized buffer.
#[derive(Clone, Copy, Debug, PartialEq, Eq, Structural, Hash)]
pub struct BufferInfo {
    pub size: u64,
}

/// What a materialized resource is.
#[derive(Clone, Copy, Debug, PartialEq, Eq, Structural, Hash)]
pub enum ResourceInfo {
    Buffer(BufferInfo),
    Texture,
    Sampler,
}

/// The family of a resource, without its details.
#[derive(Clone, Copy, Debug, PartialEq, Eq, Structural, Hash)]
pub enum ResourceKind {
    Buffer,
    Texture,
    Sampler,
}

impl ResourceInfo {
    pub open spec fn spec_kind(&self) -> ResourceKind {
        match self {
            ResourceInfo::Buffer(_) => ResourceKind::Buffer,
            ResourceInfo::Texture => ResourceKind::Texture,
            ResourceInfo::Sampler => ResourceKind::Sampler,
        }
    }

    /// The family this resource belongs to.
    #[verifier::when_used_as_spec(spec_kind)]
    pub fn kind(&self) -> (kind: ResourceKind)
        ensures
            kind == self.spec_kind(),
    {
        match self {
            ResourceInfo::Buffer(_) => ResourceKind::Buffer,
            ResourceInfo::Texture => ResourceKind::Texture,
            ResourceInfo::Sampler => ResourceKind::Sampler,
        }
    }
}

impl Key for RenderResource {
    type Model = RenderResource;

    open spec fn model(&self) -> RenderResource {
        *self
    }

    fn same(&self, other: &Self) -> (equal: bool) {
        self.0 == other.0
    }
}

impl Key for BindGroupDescriptorId {
    type Model = BindGroupDescriptorId;

    open spec fn model(&self) -> BindGroupDescriptorId {
        *self
    }

    fn same(&self, other: &Self) -> (equal: bool) {
        self.0 == other.0
    }
}

impl Key for (BindGroupDescriptorId, RenderResourceSetId) {
    type Model = (BindGroupDescriptorId, RenderResourceSetId);

    open spec fn model(&self) -> (BindGroupDescriptorId, RenderResourceSetId) {
        *self
    }

    fn same(&self, other: &Self) -> (equal: bool) {
        self.0.0 == other.0.0 && self.1.0 == other.1.0
    }
}

impl Key for PipelineHandle {
    type Model = PipelineHandle;

    open spec fn model(&self) -> PipelineHandle {
        *self
    }

    fn same(&self, other: &Self) -> (equal: bool) {
        self.0 == other.0
    }
}

impl Key for ShaderHandle {
    type Model = ShaderHandle;

    open spec fn model(&self) -> ShaderHandle {
        *self
    }

    fn same(&self, other: &Self) -> (equal: bool) {
        self.0 == other.0
    }
}

impl Key for WindowId {
    type Model = WindowId;

    open spec fn model(&self) -> WindowId {
        *self
    }

    fn same(&self, other: &Self) -> (equal: bool) {
        self.0 == other.0
    }
}

} // verus!
