use bevy_wgpu::headless::{HeadlessCommand, HeadlessRenderResourceContext};
use bevy_wgpu::resource::{BufferInfo, RenderResource, WindowId};
use bevy_wgpu::{
    BackendObject, LazyCommandEncoder, RenderError, RenderResourceContext, WgpuRenderContext,
};

fn context() -> WgpuRenderContext<HeadlessRenderResourceContext> {
    WgpuRenderContext::new(HeadlessRenderResourceContext::new())
}

/// A cache with two 64-byte buffers.
fn two_buffers() -> (HeadlessRenderResourceContext, RenderResource, RenderResource) {
    let mut cache = HeadlessRenderResourceContext::new();
    let source = cache.create_buffer(BufferInfo { size: 64 });
    let destination = cache.create_buffer(BufferInfo { size: 64 });
    (cache, source, destination)
}

fn copy(source: RenderResource, destination: RenderResource, size: u64) -> HeadlessCommand {
    HeadlessCommand::CopyBufferToBuffer {
        source,
        source_offset: 0,
        destination,
        destination_offset: 0,
        size,
    }
}

#[test]
fn new_recorder_is_empty() {
    let mut recorder: LazyCommandEncoder<HeadlessRenderResourceContext> = LazyCommandEncoder::new();
    assert!(!recorder.is_some());
    assert!(recorder.take().is_none());
    assert!(!recorder.is_some());
}

#[test]
fn get_or_create_fills_the_slot_once() {
    let (cache, source, destination) = two_buffers();
    let mut recorder = LazyCommandEncoder::new();
    assert!(recorder.get_or_create(&cache).commands.is_empty());
    assert!(recorder.is_some());
    cache.copy_buffer_to_buffer(recorder.get_or_create(&cache), source, 0, destination, 0, 4);
    let first = recorder.take().expect("an encoder was created");
    assert_eq!(first.commands, vec![copy(source, destination, 4)]);
    assert!(!recorder.is_some());
    recorder.set(first);
    assert!(recorder.is_some());
    // the encoder that was put back is the one handed out, not a new one
    assert_eq!(recorder.get_or_create(&cache).commands, vec![copy(source, destination, 4)]);
    assert!(recorder.is_some());
}

#[test]
fn get_or_create_keeps_the_active_encoder() {
    let (cache, source, destination) = two_buffers();
    let mut recorder = LazyCommandEncoder::new();
    cache.copy_buffer_to_buffer(recorder.get_or_create(&cache), source, 0, destination, 0, 4);
    cache.copy_buffer_to_buffer(recorder.get_or_create(&cache), source, 0, destination, 0, 8);
    let taken = recorder.take().expect("active");
    assert_eq!(
        taken.commands,
        vec![copy(source, destination, 4), copy(source, destination, 8)]
    );
}

#[test]
fn create_replaces_the_active_encoder() {
    let (cache, source, destination) = two_buffers();
    let mut recorder = LazyCommandEncoder::new();
    recorder.create(&cache);
    assert!(recorder.is_some());
    cache.copy_buffer_to_buffer(recorder.get_or_create(&cache), source, 0, destination, 0, 4);
    recorder.create(&cache);
    assert!(recorder.is_some());
    assert!(recorder.take().expect("active").commands.is_empty());
}

#[test]
fn take_empties_the_slot() {
    let cache = HeadlessRenderResourceContext::new();
    let mut recorder = LazyCommandEncoder::new();
    recorder.create(&cache);
    assert!(recorder.take().is_some());
    assert!(!recorder.is_some());
    assert!(recorder.take().is_none());
}

#[test]
fn set_replaces_the_active_encoder() {
    let (cache, source, destination) = two_buffers();
    let mut recorder = LazyCommandEncoder::new();
    let mut kept = cache.create_command_encoder();
    cache.copy_buffer_to_buffer(&mut kept, source, 0, destination, 0, 12);
    recorder.create(&cache);
    recorder.set(kept);
    assert_eq!(recorder.take().expect("active").commands, vec![copy(source, destination, 12)]);
}

#[test]
fn new_context_has_no_window_and_no_recording() {
    let context = context();
    assert_eq!(context.primary_window, None);
    assert!(!context.command_encoder.is_some());
    assert!(context.render_resources.created.is_empty());
}

#[test]
fn finish_encoder_clears_the_recorder() {
    let (cache, source, destination) = two_buffers();
    let mut context = WgpuRenderContext::new(cache);
    assert_eq!(context.copy_buffer_to_buffer(source, 0, destination, 0, 16), Ok(()));
    assert!(context.command_encoder.is_some());
    let buffer = context.finish_encoder().expect("a recording was active");
    assert_eq!(buffer.commands, vec![copy(source, destination, 16)]);
    assert!(!context.command_encoder.is_some());
    // nothing is left to seal
    assert!(context.finish_encoder().is_none());
    // asking again starts a new recording, not the sealed one
    assert_eq!(context.copy_buffer_to_buffer(destination, 0, source, 0, 32), Ok(()));
    assert!(context.command_encoder.is_some());
    let buffer = context.finish_encoder().expect("a recording was active");
    assert_eq!(buffer.commands, vec![copy(destination, source, 32)]);
}

#[test]
fn finish_without_recording_returns_no_buffer() {
    let mut cache = HeadlessRenderResourceContext::new();
    let buffer = cache.create_buffer(BufferInfo { size: 16 });
    let context = WgpuRenderContext::new(cache);
    let (commands, cache) = context.finish();
    assert!(commands.is_none());
    assert_eq!(cache.created, vec![BackendObject::Buffer(buffer)]);
}

#[test]
fn finish_seals_the_active_recording() {
    let (cache, source, destination) = two_buffers();
    let mut context = WgpuRenderContext::new(cache);
    assert_eq!(context.copy_buffer_to_buffer(source, 0, destination, 0, 64), Ok(()));
    assert_eq!(context.copy_buffer_to_buffer(source, 8, destination, 16, 24), Ok(()));
    let (commands, cache) = context.finish();
    assert_eq!(
        commands.expect("a recording was active").commands,
        vec![
            copy(source, destination, 64),
            HeadlessCommand::CopyBufferToBuffer {
                source,
                source_offset: 8,
                destination,
                destination_offset: 16,
                size: 24,
            },
        ]
    );
    assert_eq!(cache.resources.len(), 2);
}

#[test]
fn copy_starts_a_recording_and_checks_both_buffers() {
    let mut context = context();
    let buffer = context.resources_mut().create_buffer(BufferInfo { size: 32 });
    let texture = context.resources_mut().create_texture();
    let missing = RenderResource(77);

    assert_eq!(
        context.copy_buffer_to_buffer(missing, 0, buffer, 0, 4),
        Err(RenderError::MissingBuffer { resource: missing })
    );
    // the recording is started before the buffers are looked up
    assert!(context.command_encoder.is_some());
    assert_eq!(
        context.copy_buffer_to_buffer(texture, 0, buffer, 0, 4),
        Err(RenderError::MissingBuffer { resource: texture })
    );
    assert_eq!(
        context.copy_buffer_to_buffer(buffer, 0, texture, 0, 4),
        Err(RenderError::MissingBuffer { resource: texture })
    );
    // the source is looked up first
    assert_eq!(
        context.copy_buffer_to_buffer(missing, 0, texture, 0, 4),
        Err(RenderError::MissingBuffer { resource: missing })
    );
    let other = context.resources_mut().create_buffer(BufferInfo { size: 32 });
    assert_eq!(context.copy_buffer_to_buffer(buffer, 0, other, 8, 16), Ok(()));
    // a copy that failed recorded nothing
    let buffer_commands = context.finish_encoder().expect("a recording was active").commands;
    assert_eq!(
        buffer_commands,
        vec![HeadlessCommand::CopyBufferToBuffer {
            source: buffer,
            source_offset: 0,
            destination: other,
            destination_offset: 8,
            size: 16,
        }]
    );
}

#[test]
fn create_texture_with_data_materializes_a_texture() {
    let mut context = context();
    let buffer = context.resources_mut().create_buffer(BufferInfo { size: 4 });
    let descriptor = bevy_render::texture::TextureDescriptor::default();
    let texture = context.create_texture_with_data(&descriptor, &[255, 0, 0, 255]);
    assert_ne!(texture, buffer);
    assert!(context.command_encoder.is_some());
    assert_eq!(
        context.resources().created,
        vec![BackendObject::Buffer(buffer), BackendObject::Texture(texture)]
    );
    let more = context.create_texture_with_data(&descriptor, &[0, 0, 0, 0]);
    assert_ne!(more, texture);
    assert_eq!(context.resources().resources.len(), 3);
    assert_eq!(
        context.finish_encoder().expect("a recording was active").commands,
        vec![
            HeadlessCommand::WriteTexture { texture, descriptor, bytes: vec![255, 0, 0, 255] },
            HeadlessCommand::WriteTexture { texture: more, descriptor, bytes: vec![0, 0, 0, 0] },
        ]
    );
}

#[test]
fn resources_gives_the_cache() {
    let mut context = context();
    context.primary_window = Some(WindowId(3));
    context.resources_mut().set_swap_chain_output(WindowId(3));
    assert!(context.resources().swap_chain_outputs.contains(&WindowId(3)));
    assert!(!context.resources().swap_chain_outputs.contains(&WindowId(4)));
    assert_eq!(context.primary_window, Some(WindowId(3)));
}
