//! The render context of a wgpu backend.
//!
//! A render context owns one command recorder and one resource cache. Given
//! declarative descriptions of pipelines, bind groups and passes, it
//! materializes the backend objects they need on first use, caches them by
//! logical identity, and records passes and copies on a single recording
//! that is created lazily and sealed on demand.
//!
//! The context reaches the graphics device only through
//! [`RenderResourceContext`]. [`HeadlessRenderResourceContext`] implements it
//! without a device and keeps a record of everything it was asked to create.
//!
//! - [`context`]: the render context and its operations.
//! - [`encoder`]: the command recorder.
//! - [`bind_group`], [`render_pipeline`], [`attachments`]: what each
//!   materializer produces, as functions of the cache and the descriptions.
//! - [`backend`]: the resource cache as the context sees it.
//! - [`laws`]: what holds of the materializers and the recorder on every input.

pub mod assignments;
pub mod attachments;
pub mod backend;
pub mod bind_group;
pub mod context;
pub mod encoder;
pub mod error;
pub mod headless;
pub mod laws;
pub mod pass;
pub mod pipeline;
pub mod registry;
pub mod render_pipeline;
pub mod resource;
pub mod shader;

pub use assignments::RenderResourceAssignments;
pub use attachments::{
    create_render_pass, get_texture_view, resolve_color_attachment,
    resolve_depth_stencil_attachment, SWAP_CHAIN,
};
pub use backend::{BackendObject, RenderResourceContext};
pub use context::WgpuRenderContext;
pub use encoder::LazyCommandEncoder;
pub use error::RenderError;
pub use headless::HeadlessRenderResourceContext;
