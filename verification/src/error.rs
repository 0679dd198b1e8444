//! Configuration errors. Each one ends the operation that met it; none is
//! recoverable within the frame.

use crate::resource::{
    BindGroupDescriptorId, PipelineHandle, RenderResource, RenderResourceAssignmentsId,
    ResourceKind, ShaderHandle, WindowId,
};
use vstd::prelude::*;

verus! {

#[derive(Clone, Debug, PartialEq, Eq)]
pub enum RenderError {
    /// A binding is declared, but no resource is assigned to its name.
    UnassignedBinding { name: String, assignments: RenderResourceAssignmentsId },
    /// The resource assigned to a binding has not been materialized.
    MissingResource { name: String, resource: RenderResource },
    /// The resource assigned to a binding is not of the kind the binding declares.
    WrongResourceKind { name: String, expected: ResourceKind, actual: ResourceKind },
    /// The binding declares a kind that bind groups do not support.
    UnsupportedBindType { name: String },
    /// No layout object has been materialized for the bind group.
    MissingBindGroupLayout { bind_group: BindGroupDescriptorId },
    /// The pipeline description has no resolved layout.
    MissingPipelineLayout { pipeline: PipelineHandle },
    /// The shader storage holds no asset for a shader stage.
    MissingShader { shader: ShaderHandle },
    /// An attachment names the swap chain, but the context has no primary window.
    MissingPrimaryWindow,
    /// The primary window has no current swap-chain output.
    MissingSwapChainOutput { window: WindowId },
    /// No resource is assigned to the name of an attachment.
    UnassignedAttachment { name: String },
    /// The resource assigned to an attachment is not a materialized texture.
    MissingTexture { name: String, resource: RenderResource },
    /// A copy names a resource that is not a materialized buffer.
    MissingBuffer { resource: RenderResource },
}

/// A [`RenderError`] with each name as a sequence of characters.
pub enum RenderFault {
    UnassignedBinding { name: Seq<char>, assignments: RenderResourceAssignmentsId },
    MissingResource { name: Seq<char>, resource: RenderResource },
    WrongResourceKind { name: Seq<char>, expected: ResourceKind, actual: ResourceKind },
    UnsupportedBindType { name: Seq<char> },
    MissingBindGroupLayout { bind_group: BindGroupDescriptorId },
    MissingPipelineLayout { pipeline: PipelineHandle },
    MissingShader { shader: ShaderHandle },
    MissingPrimaryWindow,
    MissingSwapChainOutput { window: WindowId },
    UnassignedAttachment { name: Seq<char> },
    MissingTexture { name: Seq<char>, resource: RenderResource },
    MissingBuffer { resource: RenderResource },
}

impl View for RenderError {
    type V = RenderFault;

    open spec fn view(&self) -> RenderFault {
        match self {
            RenderError::UnassignedBinding { name, assignments } => RenderFault::UnassignedBinding {
                name: name@,
                assignments: *assignments,
            },
            RenderError::MissingResource { name, resource } => RenderFault::MissingResource {
                name: name@,
                resource: *resource,
            },
            RenderError::WrongResourceKind {
                name,
                expected,
                actual,
            } => RenderFault::WrongResourceKind {
                name: name@,
                expected: *expected,
                actual: *actual,
            },
            RenderError::UnsupportedBindType { name } => RenderFault::UnsupportedBindType {
                name: name@,
            },
            RenderError::MissingBindGroupLayout {
                bind_group,
            } => RenderFault::MissingBindGroupLayout { bind_group: *bind_group },
            RenderError::MissingPipelineLayout { pipeline } => RenderFault::MissingPipelineLayout {
                pipeline: *pipeline,
            },
            RenderError::MissingShader { shader } => RenderFault::MissingShader {
                shader: *shader,
            },
            RenderError::MissingPrimaryWindow => RenderFault::MissingPrimaryWindow,
            RenderError::MissingSwapChainOutput { window } => RenderFault::MissingSwapChainOutput {
                window: *window,
            },
            RenderError::UnassignedAttachment { name } => RenderFault::UnassignedAttachment {
                name: name@,
            },
            RenderError::MissingTexture { name, resource } => RenderFault::MissingTexture {
                name: name@,
                resource: *resource,
            },
            RenderError::MissingBuffer { resource } => RenderFault::MissingBuffer {
                resource: *resource,
            },
        }
    }
}

} // verus!
