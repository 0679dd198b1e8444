use bevy_wgpu::headless::{HeadlessCommand, HeadlessRenderResourceContext};
use bevy_wgpu::pass::{
    Color, ColorAttachment, DepthStencilAttachment, LoadOp, PassDescriptor,
    RenderPassColorAttachmentDescriptor, RenderPassDepthStencilAttachmentDescriptor, StoreOp,
    TextureView,
};
use bevy_wgpu::resource::{
    BufferInfo, RenderResource, RenderResourceAssignmentsId, WindowId,
};
use bevy_wgpu::{
    create_render_pass, get_texture_view, resolve_color_attachment,
    resolve_depth_stencil_attachment, RenderError, RenderResourceAssignments,
    RenderResourceContext, WgpuRenderContext, SWAP_CHAIN,
};
use std::cell::Cell;

const WINDOW: WindowId = WindowId(1);

fn context() -> WgpuRenderContext<HeadlessRenderResourceContext> {
    WgpuRenderContext::new(HeadlessRenderResourceContext::new())
}

fn assignments() -> RenderResourceAssignments {
    RenderResourceAssignments::new(RenderResourceAssignmentsId(1))
}

fn black() -> Color {
    Color { r: 0, g: 0, b: 0, a: 1.0f32.to_bits() }
}

fn color(attachment: &str, resolve_target: Option<&str>) -> RenderPassColorAttachmentDescriptor {
    RenderPassColorAttachmentDescriptor {
        attachment: attachment.to_string(),
        resolve_target: resolve_target.map(|name| name.to_string()),
        load_op: LoadOp::Clear,
        store_op: StoreOp::Store,
        clear_color: black(),
    }
}

fn depth(attachment: &str) -> RenderPassDepthStencilAttachmentDescriptor {
    RenderPassDepthStencilAttachmentDescriptor {
        attachment: attachment.to_string(),
        depth_load_op: LoadOp::Clear,
        depth_store_op: StoreOp::Store,
        clear_depth: 1.0f32.to_bits(),
        stencil_load_op: LoadOp::Load,
        stencil_store_op: StoreOp::Clear,
        clear_stencil: 7,
    }
}

#[test]
fn the_reserved_name_is_swap_chain() {
    assert_eq!(SWAP_CHAIN, "SwapChain");
}

#[test]
fn swap_chain_resolves_to_the_primary_window() {
    let mut context = context();
    let assignments = assignments();
    assert_eq!(
        get_texture_view(&context, &assignments, SWAP_CHAIN),
        Err(RenderError::MissingPrimaryWindow)
    );
    context.primary_window = Some(WINDOW);
    assert_eq!(
        get_texture_view(&context, &assignments, SWAP_CHAIN),
        Err(RenderError::MissingSwapChainOutput { window: WINDOW })
    );
    context.resources_mut().set_swap_chain_output(WindowId(2));
    assert_eq!(
        get_texture_view(&context, &assignments, SWAP_CHAIN),
        Err(RenderError::MissingSwapChainOutput { window: WINDOW })
    );
    context.resources_mut().set_swap_chain_output(WINDOW);
    assert_eq!(
        get_texture_view(&context, &assignments, SWAP_CHAIN),
        Ok(TextureView::SwapChainOutput(WINDOW))
    );
}

#[test]
fn swap_chain_does_not_go_through_the_assignments() {
    let mut context = context();
    let texture = context.resources_mut().create_texture();
    context.resources_mut().set_swap_chain_output(WINDOW);
    context.primary_window = Some(WINDOW);
    let mut assignments = assignments();
    assignments.set(SWAP_CHAIN, texture);
    assert_eq!(
        get_texture_view(&context, &assignments, "SwapChain"),
        Ok(TextureView::SwapChainOutput(WINDOW))
    );
}

#[test]
fn other_names_resolve_through_the_assignments() {
    let mut context = context();
    context.primary_window = Some(WINDOW);
    context.resources_mut().set_swap_chain_output(WINDOW);
    let buffer = context.resources_mut().create_buffer(BufferInfo { size: 4 });
    let texture = context.resources_mut().create_texture();
    let mut assignments = assignments();
    assert_eq!(
        get_texture_view(&context, &assignments, "Depth"),
        Err(RenderError::UnassignedAttachment { name: "Depth".to_string() })
    );
    assert_eq!(
        get_texture_view(&context, &assignments, "swapchain"),
        Err(RenderError::UnassignedAttachment { name: "swapchain".to_string() })
    );
    assignments.set("Depth", texture);
    assert_eq!(get_texture_view(&context, &assignments, "Depth"), Ok(TextureView::Texture(texture)));
    assignments.set("Depth", buffer);
    assert_eq!(
        get_texture_view(&context, &assignments, "Depth"),
        Err(RenderError::MissingTexture { name: "Depth".to_string(), resource: buffer })
    );
    assignments.set("Depth", RenderResource(40));
    assert_eq!(
        get_texture_view(&context, &assignments, "Depth"),
        Err(RenderError::MissingTexture { name: "Depth".to_string(), resource: RenderResource(40) })
    );
}

#[test]
fn color_attachment_resolves_both_views() {
    let mut context = context();
    context.primary_window = Some(WINDOW);
    context.resources_mut().set_swap_chain_output(WINDOW);
    let texture = context.resources_mut().create_texture();
    let mut assignments = assignments();
    assignments.set("Multisampled", texture);

    assert_eq!(
        resolve_color_attachment(&context, &assignments, &color(SWAP_CHAIN, None)),
        Ok(ColorAttachment {
            attachment: TextureView::SwapChainOutput(WINDOW),
            resolve_target: None,
            load_op: LoadOp::Clear,
            store_op: StoreOp::Store,
            clear_color: black(),
        })
    );
    assert_eq!(
        resolve_color_attachment(&context, &assignments, &color("Multisampled", Some(SWAP_CHAIN))),
        Ok(ColorAttachment {
            attachment: TextureView::Texture(texture),
            resolve_target: Some(TextureView::SwapChainOutput(WINDOW)),
            load_op: LoadOp::Clear,
            store_op: StoreOp::Store,
            clear_color: black(),
        })
    );
    // the attachment is resolved before its resolve target
    assert_eq!(
        resolve_color_attachment(&context, &assignments, &color("First", Some("Second"))),
        Err(RenderError::UnassignedAttachment { name: "First".to_string() })
    );
    assert_eq!(
        resolve_color_attachment(&context, &assignments, &color(SWAP_CHAIN, Some("Second"))),
        Err(RenderError::UnassignedAttachment { name: "Second".to_string() })
    );
}

#[test]
fn color_attachment_keeps_its_operations() {
    let mut context = context();
    let texture = context.resources_mut().create_texture();
    let mut assignments = assignments();
    assignments.set("Main", texture);
    let descriptor = RenderPassColorAttachmentDescriptor {
        attachment: "Main".to_string(),
        resolve_target: None,
        load_op: LoadOp::Load,
        store_op: StoreOp::Clear,
        clear_color: Color { r: 1, g: 2, b: 3, a: 4 },
    };
    assert_eq!(
        resolve_color_attachment(&context, &assignments, &descriptor),
        Ok(ColorAttachment {
            attachment: TextureView::Texture(texture),
            resolve_target: None,
            load_op: LoadOp::Load,
            store_op: StoreOp::Clear,
            clear_color: Color { r: 1, g: 2, b: 3, a: 4 },
        })
    );
}

#[test]
fn depth_stencil_attachment_keeps_its_operations() {
    let mut context = context();
    let texture = context.resources_mut().create_texture();
    let mut assignments = assignments();
    assignments.set("Depth", texture);
    assert_eq!(
        resolve_depth_stencil_attachment(&context, &assignments, &depth("Depth")),
        Ok(DepthStencilAttachment {
            attachment: TextureView::Texture(texture),
            depth_load_op: LoadOp::Clear,
            depth_store_op: StoreOp::Store,
            clear_depth: 0x3f80_0000,
            stencil_load_op: LoadOp::Load,
            stencil_store_op: StoreOp::Clear,
            clear_stencil: 7,
        })
    );
    assert_eq!(
        resolve_depth_stencil_attachment(&context, &assignments, &depth("Shadow")),
        Err(RenderError::UnassignedAttachment { name: "Shadow".to_string() })
    );
}

fn main_pass() -> PassDescriptor {
    PassDescriptor {
        color_attachments: vec![color(SWAP_CHAIN, None), color("Bloom", None)],
        depth_stencil_attachment: Some(depth("Depth")),
        sample_count: 1,
    }
}

#[test]
fn create_render_pass_opens_a_scope_over_the_resolved_attachments() {
    let mut context = context();
    context.primary_window = Some(WINDOW);
    context.resources_mut().set_swap_chain_output(WINDOW);
    let bloom = context.resources_mut().create_texture();
    let depth_texture = context.resources_mut().create_texture();
    let mut assignments = assignments();
    assignments.set("Bloom", bloom);
    assignments.set("Depth", depth_texture);
    let encoder = context.resources().create_command_encoder();

    let pass = match create_render_pass(&context, &main_pass(), &assignments, encoder) {
        Ok(pass) => pass,
        Err((error, _)) => panic!("every attachment resolves, but: {:?}", error),
    };
    assert_eq!(pass.color_attachments.len(), 2);
    assert_eq!(pass.color_attachments[0].attachment, TextureView::SwapChainOutput(WINDOW));
    assert_eq!(pass.color_attachments[1].attachment, TextureView::Texture(bloom));
    assert_eq!(
        pass.depth_stencil_attachment.map(|depth| depth.attachment),
        Some(TextureView::Texture(depth_texture))
    );
    // the pass is recorded when its scope is closed
    assert!(pass.encoder.commands.is_empty());
    let color_attachments = pass.color_attachments.clone();
    let depth_stencil_attachment = pass.depth_stencil_attachment;
    let encoder = context.resources().end_render_pass(pass);
    assert_eq!(
        encoder.commands,
        vec![HeadlessCommand::RenderPass { color_attachments, depth_stencil_attachment }]
    );
}

#[test]
fn create_render_pass_reports_the_first_attachment_that_fails() {
    let mut context = context();
    let encoder = context.resources().create_command_encoder();
    let assignments = assignments();
    // colors come before depth, and in declaration order
    let (error, encoder) =
        create_render_pass(&context, &main_pass(), &assignments, encoder).err().expect("fails");
    assert_eq!(error, RenderError::MissingPrimaryWindow);
    context.primary_window = Some(WINDOW);
    context.resources_mut().set_swap_chain_output(WINDOW);
    let (error, encoder) =
        create_render_pass(&context, &main_pass(), &assignments, encoder).err().expect("fails");
    assert_eq!(error, RenderError::UnassignedAttachment { name: "Bloom".to_string() });
    let bloom = context.resources_mut().create_texture();
    let mut assignments = assignments;
    assignments.set("Bloom", bloom);
    let (error, encoder) =
        create_render_pass(&context, &main_pass(), &assignments, encoder).err().expect("fails");
    assert_eq!(error, RenderError::UnassignedAttachment { name: "Depth".to_string() });
    // the recording comes back as it was
    assert!(encoder.commands.is_empty());
}

#[test]
fn begin_pass_runs_the_draw_routine_and_keeps_the_recording() {
    let mut context = context();
    context.primary_window = Some(WINDOW);
    context.resources_mut().set_swap_chain_output(WINDOW);
    let pass = PassDescriptor {
        color_attachments: vec![color(SWAP_CHAIN, None)],
        depth_stencil_attachment: None,
        sample_count: 1,
    };
    let calls = Cell::new(0);
    let seen = Cell::new(None);
    assert!(!context.command_encoder.is_some());
    let done = context.begin_pass(&pass, &assignments(), |cache, render_pass| {
        calls.set(calls.get() + 1);
        seen.set(Some(render_pass.color_attachments[0].attachment));
        assert!(cache.swap_chain_outputs.contains(&WINDOW));
        render_pass
    });
    assert_eq!(done, Ok(()));
    assert_eq!(calls.get(), 1);
    assert_eq!(seen.get(), Some(TextureView::SwapChainOutput(WINDOW)));
    // the recording goes on after the pass
    assert!(context.command_encoder.is_some());
    let done = context.begin_pass(&pass, &assignments(), |_cache, render_pass| {
        calls.set(calls.get() + 1);
        render_pass
    });
    assert_eq!(done, Ok(()));
    assert_eq!(calls.get(), 2);
    // both passes are on the one recording
    let resolved = ColorAttachment {
        attachment: TextureView::SwapChainOutput(WINDOW),
        resolve_target: None,
        load_op: LoadOp::Clear,
        store_op: StoreOp::Store,
        clear_color: black(),
    };
    let recorded = || HeadlessCommand::RenderPass {
        color_attachments: vec![resolved],
        depth_stencil_attachment: None,
    };
    assert_eq!(
        context.finish_encoder().expect("a recording was active").commands,
        vec![recorded(), recorded()]
    );
    assert!(context.finish_encoder().is_none());
}

#[test]
fn begin_pass_with_an_unresolved_attachment_does_not_draw() {
    let mut context = context();
    let pass = PassDescriptor {
        color_attachments: vec![color("Main", None)],
        depth_stencil_attachment: None,
        sample_count: 1,
    };
    let calls = Cell::new(0);
    let done = context.begin_pass(&pass, &assignments(), |_cache, render_pass| {
        calls.set(calls.get() + 1);
        render_pass
    });
    assert_eq!(done, Err(RenderError::UnassignedAttachment { name: "Main".to_string() }));
    assert_eq!(calls.get(), 0);
    // the recording that was started for the pass is kept, and is empty
    assert!(context.command_encoder.is_some());
    assert!(context.finish_encoder().expect("a recording was active").commands.is_empty());
}

#[test]
fn a_pass_without_attachments_opens_an_empty_scope() {
    let mut context = context();
    let pass =
        PassDescriptor { color_attachments: vec![], depth_stencil_attachment: None, sample_count: 1 };
    let colors = Cell::new(usize::MAX);
    let done = context.begin_pass(&pass, &assignments(), |_cache, render_pass| {
        colors.set(render_pass.color_attachments.len());
        assert!(render_pass.depth_stencil_attachment.is_none());
        render_pass
    });
    assert_eq!(done, Ok(()));
    assert_eq!(colors.get(), 0);
}
