//! Declarative descriptions of render passes and their attachments.

use crate::resource::{RenderResource, WindowId};
use vstd::prelude::*;

verus! {

/// What happens to an attachment when a pass begins.
#[derive(Clone, Copy, Debug, PartialEq, Eq, Structural, Hash)]
pub enum LoadOp {
    Clear,
    Load,
}

/// What happens to an attachment when a pass ends.
#[derive(Clone, Copy, Debug, PartialEq, Eq, Structural, Hash)]
pub enum StoreOp {
    Clear,
    Store,
}

/// A color whose four components are IEEE 754 single-precision bit patterns.
#[derive(Clone, Copy, Debug, PartialEq, Eq, Structural, Hash)]
pub struct Color {
    pub r: u32,
    pub g: u32,
    pub b: u32,
    pub a: u32,
}

/// A color attachment of a pass, named.
#[derive(Clone, Debug, PartialEq, Eq)]
pub struct RenderPassColorAttachmentDescriptor {
    pub attachment: String,
    pub resolve_target: Option<String>,
    pub load_op: LoadOp,
    pub store_op: StoreOp,
    pub clear_color: Color,
}

/// The depth/stencil attachment of a pass, named. `clear_depth` is an
/// IEEE 754 single-precision bit pattern.
#[derive(Clone, Debug, PartialEq, Eq)]
pub struct RenderPassDepthStencilAttachmentDescriptor {
    pub attachment: String,
    pub depth_load_op: LoadOp,
    pub depth_store_op: StoreOp,
    pub clear_depth: u32,
    pub stencil_load_op: LoadOp,
    pub stencil_store_op: StoreOp,
    pub clear_stencil: u32,
}

/// A render pass, as declared.
#[derive(Clone, Debug, PartialEq, Eq)]
pub struct PassDescriptor {
    pub color_attachments: Vec<RenderPassColorAttachmentDescriptor>,
    pub depth_stencil_attachment: Option<RenderPassDepthStencilAttachmentDescriptor>,
    pub sample_count: u32,
}

/// The texture view an attachment name resolves to.
#[derive(Clone, Copy, Debug, PartialEq, Eq, Structural, Hash)]
pub enum TextureView {
    /// The current output of a window's swap chain.
    SwapChainOutput(WindowId),
    /// The view of a materialized texture.
    Texture(RenderResource),
}

/// A color attachment with its views resolved.
#[derive(Clone, Copy, Debug, PartialEq, Eq, Structural, Hash)]
pub struct ColorAttachment {
    pub attachment: TextureView,
    pub resolve_target: Option<TextureView>,
    pub load_op: LoadOp,
    pub store_op: StoreOp,
    pub clear_color: Color,
}

/// A depth/stencil attachment with its view resolved.
#[derive(Clone, Copy, Debug, PartialEq, Eq, Structural, Hash)]
pub struct DepthStencilAttachment {
    pub attachment: TextureView,
    pub depth_load_op: LoadOp,
    pub depth_store_op: StoreOp,
    pub clear_depth: u32,
    pub stencil_load_op: LoadOp,
    pub stencil_store_op: StoreOp,
    pub clear_stencil: u32,
}

} // verus!
