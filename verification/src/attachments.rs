//! Resolution of the named attachments of a pass to texture views.

use crate::assignments::RenderResourceAssignments;
use crate::backend::{RenderResourceContext, ResourceState};
use crate::context::WgpuRenderContext;
use crate::error::{RenderError, RenderFault};
use crate::pass::{
    ColorAttachment, DepthStencilAttachment, PassDescriptor, RenderPassColorAttachmentDescriptor,
    RenderPassDepthStencilAttachmentDescriptor, TextureView,
};
use crate::resource::{ResourceInfo, WindowId};
use vstd::prelude::*;

verus! {

/// The attachment name that stands for the current output of the primary
/// window's swap chain.
pub const SWAP_CHAIN: &'static str = "SwapChain";

/// Whether two names are the same sequence of characters.
fn same_name(a: &str, b: &str) -> (same: bool)
    ensures
        same == (a@ == b@),
{
    a.to_owned() == b.to_owned()
}

/// The view an attachment name stands for. The reserved name resolves to
/// the swap-chain output of the primary window; every other name resolves
/// through the assignments to a materialized texture.
pub open spec fn texture_view(
    state: ResourceState,
    primary_window: Option<WindowId>,
    assignments: &RenderResourceAssignments,
    name: Seq<char>,
) -> Result<TextureView, RenderFault> {
    if name == SWAP_CHAIN@ {
        match primary_window {
            None => Err(RenderFault::MissingPrimaryWindow),
            Some(window) => if state.swap_chain_outputs.contains(window) {
                Ok(TextureView::SwapChainOutput(window))
            } else {
                Err(RenderFault::MissingSwapChainOutput { window })
            },
        }
    } else if !assignments.resources().contains_key(name) {
        Err(RenderFault::UnassignedAttachment { name })
    } else {
        let resource = assignments.resources()[name];
        if state.resources.contains_key(resource) && state.resources[resource]
            == ResourceInfo::Texture {
            Ok(TextureView::Texture(resource))
        } else {
            Err(RenderFault::MissingTexture { name, resource })
        }
    }
}

/// A color attachment with its attachment resolved first, then its resolve
/// target, if it names one.
pub open spec fn color_attachment(
    state: ResourceState,
    primary_window: Option<WindowId>,
    assignments: &RenderResourceAssignments,
    descriptor: RenderPassColorAttachmentDescriptor,
) -> Result<ColorAttachment, RenderFault> {
    match texture_view(state, primary_window, assignments, descriptor.attachment@) {
        Err(fault) => Err(fault),
        Ok(attachment) => {
            let resolve_target = match descriptor.resolve_target {
                None => Ok(None),
                Some(target) => match texture_view(state, primary_window, assignments, target@) {
                    Err(fault) => Err(fault),
                    Ok(view) => Ok(Some(view)),
                },
            };
            match resolve_target {
                Err(fault) => Err(fault),
                Ok(resolve_target) => Ok(
                    ColorAttachment {
                        attachment,
                        resolve_target,
                        load_op: descriptor.load_op,
                        store_op: descriptor.store_op,
                        clear_color: descriptor.clear_color,
                    },
                ),
            }
        },
    }
}

/// A depth/stencil attachment with its attachment resolved.
pub open spec fn depth_stencil_attachment(
    state: ResourceState,
    primary_window: Option<WindowId>,
    assignments: &RenderResourceAssignments,
    descriptor: RenderPassDepthStencilAttachmentDescriptor,
) -> Result<DepthStencilAttachment, RenderFault> {
    match texture_view(state, primary_window, assignments, descriptor.attachment@) {
        Err(fault) => Err(fault),
        Ok(attachment) => Ok(
            DepthStencilAttachment {
                attachment,
                depth_load_op: descriptor.depth_load_op,
                depth_store_op: descriptor.depth_store_op,
                clear_depth: descriptor.clear_depth,
                stencil_load_op: descriptor.stencil_load_op,
                stencil_store_op: descriptor.stencil_store_op,
                clear_stencil: descriptor.clear_stencil,
            },
        ),
    }
}

/// Color attachments resolved in declaration order; the fault of the first
/// that does not resolve, if there is one.
pub open spec fn color_attachments(
    state: ResourceState,
    primary_window: Option<WindowId>,
    assignments: &RenderResourceAssignments,
    descriptors: Seq<RenderPassColorAttachmentDescriptor>,
) -> Result<Seq<ColorAttachment>, RenderFault>
    decreases descriptors.len(),
{
    if descriptors.len() == 0 {
        Ok(Seq::empty())
    } else {
        match color_attachments(state, primary_window, assignments, descriptors.drop_last()) {
            Err(fault) => Err(fault),
            Ok(resolved) => match color_attachment(
                state,
                primary_window,
                assignments,
                descriptors.last(),
            ) {
                Ok(attachment) => Ok(resolved.push(attachment)),
                Err(fault) => Err(fault),
            },
        }
    }
}

/// The attachments of a pass: the color attachments resolved first, then
/// the depth/stencil attachment, if the pass declares one.
pub open spec fn pass_attachments(
    state: ResourceState,
    primary_window: Option<WindowId>,
    assignments: &RenderResourceAssignments,
    pass: &PassDescriptor,
) -> Result<(Seq<ColorAttachment>, Option<DepthStencilAttachment>), RenderFault> {
    match color_attachments(state, primary_window, assignments, pass.color_attachments@) {
        Err(fault) => Err(fault),
        Ok(colors) => match pass.depth_stencil_attachment {
            None => Ok((colors, None)),
            Some(descriptor) => match depth_stencil_attachment(
                state,
                primary_window,
                assignments,
                descriptor,
            ) {
                Err(fault) => Err(fault),
                Ok(depth) => Ok((colors, Some(depth))),
            },
        },
    }
}

/// A fault met in a prefix of the color attachments is the fault of the whole.
pub proof fn lemma_attachment_fault_in_prefix(
    state: ResourceState,
    primary_window: Option<WindowId>,
    assignments: &RenderResourceAssignments,
    descriptors: Seq<RenderPassColorAttachmentDescriptor>,
    n: int,
)
    requires
        0 <= n <= descriptors.len(),
        color_attachments(state, primary_window, assignments, descriptors.take(n)) is Err,
    ensures
        color_attachments(state, primary_window, assignments, descriptors) == color_attachments(
            state,
            primary_window,
            assignments,
            descriptors.take(n),
        ),
    decreases descriptors.len() - n,
{
    if n < descriptors.len() {
        assert(descriptors.take(n + 1).drop_last() == descriptors.take(n));
        lemma_attachment_fault_in_prefix(state, primary_window, assignments, descriptors, n + 1);
    } else {
        assert(descriptors.take(n) == descriptors);
    }
}

/// Every resolved color attachment has its views in the cache.
pub proof fn lemma_color_attachments_have_views(
    state: ResourceState,
    primary_window: Option<WindowId>,
    assignments: &RenderResourceAssignments,
    descriptors: Seq<RenderPassColorAttachmentDescriptor>,
)
    requires
        color_attachments(state, primary_window, assignments, descriptors) is Ok,
    ensures
        ({
            let resolved = color_attachments(
                state,
                primary_window,
                assignments,
                descriptors,
            )->Ok_0;
            &&& resolved.len() == descriptors.len()
            &&& forall|i: int|
                0 <= i < resolved.len() ==> {
                    &&& color_attachment(state, primary_window, assignments, descriptors[i])
                        == Ok::<ColorAttachment, RenderFault>(#[trigger] resolved[i])
                    &&& state.has_color_views(resolved[i])
                }
        }),
    decreases descriptors.len(),
{
    if descriptors.len() > 0 {
        lemma_color_attachments_have_views(
            state,
            primary_window,
            assignments,
            descriptors.drop_last(),
        );
    }
}

/// Resolves an attachment name to a texture view.
pub fn get_texture_view<T: RenderResourceContext>(
    render_context: &WgpuRenderContext<T>,
    global_render_resource_assignments: &RenderResourceAssignments,
    name: &str,
) -> (view: Result<TextureView, RenderError>)
    ensures
        match texture_view(
            render_context.render_resources.state(),
            render_context.primary_window,
            global_render_resource_assignments,
            name@,
        ) {
            Ok(expected) => view == Ok::<TextureView, RenderError>(expected),
            Err(fault) => view matches Err(error) && error@ == fault,
        },
{
    if same_name(name, SWAP_CHAIN) {
        match render_context.primary_window {
            None => Err(RenderError::MissingPrimaryWindow),
            Some(window) => if render_context.render_resources.has_swap_chain_output(window) {
                Ok(TextureView::SwapChainOutput(window))
            } else {
                Err(RenderError::MissingSwapChainOutput { window })
            },
        }
    } else {
        match global_render_resource_assignments.get(name) {
            None => Err(RenderError::UnassignedAttachment { name: name.to_owned() }),
            Some(resource) => match render_context.render_resources.get_resource_info(resource) {
                Some(ResourceInfo::Texture) => Ok(TextureView::Texture(resource)),
                _ => Err(RenderError::MissingTexture { name: name.to_owned(), resource }),
            },
        }
    }
}

/// Resolves the views of a color attachment and copies its operations.
pub fn resolve_color_attachment<T: RenderResourceContext>(
    render_context: &WgpuRenderContext<T>,
    global_render_resource_assignments: &RenderResourceAssignments,
    color_attachment_descriptor: &RenderPassColorAttachmentDescriptor,
) -> (resolved: Result<ColorAttachment, RenderError>)
    ensures
        match color_attachment(
            render_context.render_resources.state(),
            render_context.primary_window,
            global_render_resource_assignments,
            *color_attachment_descriptor,
        ) {
            Ok(expected) => resolved == Ok::<ColorAttachment, RenderError>(expected),
            Err(fault) => resolved matches Err(error) && error@ == fault,
        },
{
    let attachment = match get_texture_view(
        render_context,
        global_render_resource_assignments,
        color_attachment_descriptor.attachment.as_str(),
    ) {
        Ok(view) => view,
        Err(error) => {
            return Err(error);
        },
    };
    let resolve_target = match &color_attachment_descriptor.resolve_target {
        None => None,
        Some(target) => match get_texture_view(
            render_context,
            global_render_resource_assignments,
            target.as_str(),
        ) {
            Ok(view) => Some(view),
            Err(error) => {
                return Err(error);
            },
        },
    };
    Ok(
        ColorAttachment {
            attachment,
            resolve_target,
            load_op: color_attachment_descriptor.load_op,
            store_op: color_attachment_descriptor.store_op,
            clear_color: color_attachment_descriptor.clear_color,
        },
    )
}

/// Resolves the view of a depth/stencil attachment and copies its
/// operations.
pub fn resolve_depth_stencil_attachment<T: RenderResourceContext>(
    render_context: &WgpuRenderContext<T>,
    global_render_resource_assignments: &RenderResourceAssignments,
    depth_stencil_attachment_descriptor: &RenderPassDepthStencilAttachmentDescriptor,
) -> (resolved: Result<DepthStencilAttachment, RenderError>)
    ensures
        match depth_stencil_attachment(
            render_context.render_resources.state(),
            render_context.primary_window,
            global_render_resource_assignments,
            *depth_stencil_attachment_descriptor,
        ) {
            Ok(expected) => resolved == Ok::<DepthStencilAttachment, RenderError>(expected),
            Err(fault) => resolved matches Err(error) && error@ == fault,
        },
{
    let attachment = match get_texture_view(
        render_context,
        global_render_resource_assignments,
        depth_stencil_attachment_descriptor.attachment.as_str(),
    ) {
        Ok(view) => view,
        Err(error) => {
            return Err(error);
        },
    };
    Ok(
        DepthStencilAttachment {
            attachment,
            depth_load_op: depth_stencil_attachment_descriptor.depth_load_op,
            depth_store_op: depth_stencil_attachment_descriptor.depth_store_op,
            clear_depth: depth_stencil_attachment_descriptor.clear_depth,
            stencil_load_op: depth_stencil_attachment_descriptor.stencil_load_op,
            stencil_store_op: depth_stencil_attachment_descriptor.stencil_store_op,
            clear_stencil: depth_stencil_attachment_descriptor.clear_stencil,
        },
    )
}

/// Resolves the attachments of a pass and opens a render-pass scope over
/// them on `encoder`. Nothing is recorded yet. Where an attachment does not
/// resolve, no scope is opened and the recording is handed back as it was.
pub fn create_render_pass<T: RenderResourceContext>(
    render_context: &WgpuRenderContext<T>,
    pass_descriptor: &PassDescriptor,
    global_render_resource_assignments: &RenderResourceAssignments,
    encoder: T::CommandEncoder,
) -> (opened: Result<T::RenderPass, (RenderError, T::CommandEncoder)>)
    ensures
        match pass_attachments(
            render_context.render_resources.state(),
            render_context.primary_window,
            global_render_resource_assignments,
            pass_descriptor,
        ) {
            Ok((colors, depth)) => {
                &&& opened matches Ok(pass)
                &&& T::pass_color_attachments(&pass) == colors
                &&& T::pass_depth_stencil_attachment(&pass) == depth
                &&& T::pass_commands(&pass) == T::commands(&encoder)
            },
            Err(fault) => opened matches Err((error, returned)) && error@ == fault && returned
                == encoder,
        },
{
    let ghost state = render_context.render_resources.state();
    let ghost window = render_context.primary_window;
    let ghost declared = pass_descriptor.color_attachments@;
    let mut color_attachments: Vec<ColorAttachment> = Vec::new();
    let mut i: usize = 0;
    while i < pass_descriptor.color_attachments.len()
        invariant
            state == render_context.render_resources.state(),
            window == render_context.primary_window,
            declared == pass_descriptor.color_attachments@,
            i <= declared.len(),
            self::color_attachments(
                state,
                window,
                global_render_resource_assignments,
                declared.take(i as int),
            ) == Ok::<Seq<ColorAttachment>, RenderFault>(color_attachments@),
        decreases declared.len() - i,
    {
        proof {
            assert(declared.take(i + 1).drop_last() == declared.take(i as int));
        }
        match resolve_color_attachment(
            render_context,
            global_render_resource_assignments,
            &pass_descriptor.color_attachments[i],
        ) {
            Ok(attachment) => {
                color_attachments.push(attachment);
            },
            Err(error) => {
                proof {
                    lemma_attachment_fault_in_prefix(
                        state,
                        window,
                        global_render_resource_assignments,
                        declared,
                        i + 1,
                    );
                }
                return Err((error, encoder));
            },
        }
        i += 1;
    }
    proof {
        assert(declared.take(i as int) == declared);
        lemma_color_attachments_have_views(
            state,
            window,
            global_render_resource_assignments,
            declared,
        );
    }
    let depth_stencil_attachment = match &pass_descriptor.depth_stencil_attachment {
        None => None,
        Some(descriptor) => match resolve_depth_stencil_attachment(
            render_context,
            global_render_resource_assignments,
            descriptor,
        ) {
            Ok(attachment) => Some(attachment),
            Err(error) => {
                return Err((error, encoder));
            },
        },
    };
    Ok(
        render_context.render_resources.begin_render_pass(
            encoder,
            &color_attachments,
            &depth_stencil_attachment,
        ),
    )
}

} // verus!
