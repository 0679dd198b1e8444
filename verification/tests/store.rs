use bevy_wgpu::pipeline::{
    bind_group_layout_entries, BindGroupDescriptor, BindGroupLayoutEntry, BindType,
    BindingDescriptor, ShaderStageFlags, TextureComponentType, TextureViewDimension,
};
use bevy_wgpu::registry::Registry;
use bevy_wgpu::resource::{
    BindGroupDescriptorId, BufferInfo, RenderResource, RenderResourceAssignmentsId,
    RenderResourceSetId, ResourceInfo, ResourceKind, ShaderHandle,
};
use bevy_wgpu::shader::{Shader, ShaderStage, ShaderStorage};
use bevy_wgpu::headless::HeadlessRenderResourceContext;
use bevy_wgpu::resource::{PipelineHandle, WindowId};
use bevy_wgpu::{BackendObject, RenderResourceAssignments, RenderResourceContext};

#[test]
fn registry_starts_empty() {
    let registry: Registry<RenderResource, u32> = Registry::new();
    assert_eq!(registry.len(), 0);
    assert!(!registry.contains(&RenderResource(0)));
    assert_eq!(registry.get(&RenderResource(0)), None);
}

#[test]
fn registry_insert_then_get() {
    let mut registry: Registry<RenderResource, u32> = Registry::new();
    registry.insert(RenderResource(1), 10);
    registry.insert(RenderResource(2), 20);
    assert_eq!(registry.len(), 2);
    assert_eq!(registry.get(&RenderResource(1)), Some(&10));
    assert_eq!(registry.get(&RenderResource(2)), Some(&20));
    assert_eq!(registry.get(&RenderResource(3)), None);
    assert!(registry.contains(&RenderResource(2)));
}

#[test]
fn registry_insert_replaces() {
    let mut registry: Registry<RenderResource, u32> = Registry::new();
    registry.insert(RenderResource(1), 10);
    registry.insert(RenderResource(2), 20);
    registry.insert(RenderResource(1), 11);
    assert_eq!(registry.len(), 2);
    assert_eq!(registry.get(&RenderResource(1)), Some(&11));
    assert_eq!(registry.get(&RenderResource(2)), Some(&20));
}

#[test]
fn registry_keys_by_string_and_by_pair() {
    let mut names: Registry<String, u8> = Registry::new();
    names.insert("a".to_string(), 1);
    names.insert("ab".to_string(), 2);
    assert_eq!(names.get(&"a".to_string()), Some(&1));
    assert_eq!(names.get(&"ab".to_string()), Some(&2));
    assert_eq!(names.get(&"b".to_string()), None);

    let mut pairs: Registry<(BindGroupDescriptorId, RenderResourceSetId), u8> = Registry::new();
    pairs.insert((BindGroupDescriptorId(1), RenderResourceSetId(2)), 12);
    pairs.insert((BindGroupDescriptorId(2), RenderResourceSetId(1)), 21);
    assert_eq!(pairs.get(&(BindGroupDescriptorId(1), RenderResourceSetId(2))), Some(&12));
    assert_eq!(pairs.get(&(BindGroupDescriptorId(2), RenderResourceSetId(1))), Some(&21));
    assert_eq!(pairs.get(&(BindGroupDescriptorId(1), RenderResourceSetId(1))), None);
    assert_eq!(pairs.get(&(BindGroupDescriptorId(2), RenderResourceSetId(2))), None);
}

#[test]
fn assignments_get_and_set() {
    let mut assignments = RenderResourceAssignments::new(RenderResourceAssignmentsId(5));
    assert_eq!(assignments.id, RenderResourceAssignmentsId(5));
    assert_eq!(assignments.get("transform"), None);
    assignments.set("transform", RenderResource(1));
    assignments.set("albedo", RenderResource(2));
    assert_eq!(assignments.get("transform"), Some(RenderResource(1)));
    assert_eq!(assignments.get("albedo"), Some(RenderResource(2)));
    assert_eq!(assignments.get("normal"), None);
    assignments.set("transform", RenderResource(3));
    assert_eq!(assignments.get("transform"), Some(RenderResource(3)));
    assert_eq!(assignments.get("albedo"), Some(RenderResource(2)));
}

#[test]
fn assignments_resource_set_ids() {
    let mut assignments = RenderResourceAssignments::new(RenderResourceAssignmentsId(0));
    let layout = BindGroupDescriptorId(9);
    assert_eq!(assignments.get_render_resource_set_id(layout), None);
    assignments.set_render_resource_set_id(layout, RenderResourceSetId(100));
    assert_eq!(assignments.get_render_resource_set_id(layout), Some(RenderResourceSetId(100)));
    assert_eq!(assignments.get_render_resource_set_id(BindGroupDescriptorId(8)), None);
    assignments.set_render_resource_set_id(layout, RenderResourceSetId(101));
    assert_eq!(assignments.get_render_resource_set_id(layout), Some(RenderResourceSetId(101)));
    // a new name leaves the resource sets as they are
    assignments.set("albedo", RenderResource(2));
    assert_eq!(assignments.get_render_resource_set_id(layout), Some(RenderResourceSetId(101)));
    // so does assigning the same resource again
    assignments.set("albedo", RenderResource(2));
    assert_eq!(assignments.get_render_resource_set_id(layout), Some(RenderResourceSetId(101)));
}

#[test]
fn reassigning_a_name_drops_the_resource_sets() {
    let mut assignments = RenderResourceAssignments::new(RenderResourceAssignmentsId(0));
    assignments.set("albedo", RenderResource(2));
    assignments.set_render_resource_set_id(BindGroupDescriptorId(1), RenderResourceSetId(100));
    assignments.set_render_resource_set_id(BindGroupDescriptorId(2), RenderResourceSetId(200));
    assignments.set("albedo", RenderResource(3));
    assert_eq!(assignments.get("albedo"), Some(RenderResource(3)));
    assert_eq!(assignments.get_render_resource_set_id(BindGroupDescriptorId(1)), None);
    assert_eq!(assignments.get_render_resource_set_id(BindGroupDescriptorId(2)), None);
    assignments.set_render_resource_set_id(BindGroupDescriptorId(1), RenderResourceSetId(101));
    assert_eq!(
        assignments.get_render_resource_set_id(BindGroupDescriptorId(1)),
        Some(RenderResourceSetId(101))
    );
}

#[test]
fn resource_info_kind() {
    assert_eq!(ResourceInfo::Buffer(BufferInfo { size: 8 }).kind(), ResourceKind::Buffer);
    assert_eq!(ResourceInfo::Texture.kind(), ResourceKind::Texture);
    assert_eq!(ResourceInfo::Sampler.kind(), ResourceKind::Sampler);
}

#[test]
fn shader_storage_get_and_add() {
    let mut storage = ShaderStorage::new();
    assert!(storage.get(ShaderHandle(1)).is_none());
    storage.add(ShaderHandle(1), Shader { stage: ShaderStage::Vertex, source: vec![1, 2, 3] });
    storage.add(ShaderHandle(2), Shader { stage: ShaderStage::Fragment, source: vec![4] });
    let vertex = storage.get(ShaderHandle(1)).expect("stored");
    assert_eq!(vertex.stage, ShaderStage::Vertex);
    assert_eq!(vertex.source, vec![1, 2, 3]);
    assert_eq!(storage.get(ShaderHandle(2)).expect("stored").source, vec![4]);
    assert!(storage.get(ShaderHandle(3)).is_none());
    storage.add(ShaderHandle(1), Shader { stage: ShaderStage::Vertex, source: vec![9] });
    assert_eq!(storage.get(ShaderHandle(1)).expect("stored").source, vec![9]);
}

#[test]
fn layout_entries_are_visible_to_vertex_and_fragment() {
    let sampled = BindType::SampledTexture {
        multisampled: false,
        dimension: TextureViewDimension::D2,
        component_type: TextureComponentType::Float,
    };
    let bind_group = BindGroupDescriptor {
        id: BindGroupDescriptorId(1),
        index: 0,
        bindings: vec![
            BindingDescriptor {
                name: "transform".to_string(),
                index: 0,
                bind_type: BindType::Uniform { dynamic: false },
            },
            BindingDescriptor { name: "albedo".to_string(), index: 3, bind_type: sampled },
            BindingDescriptor {
                name: "albedo_sampler".to_string(),
                index: 4,
                bind_type: BindType::Sampler { comparison: true },
            },
        ],
    };
    let visibility = ShaderStageFlags { vertex: true, fragment: true, compute: false };
    assert_eq!(
        bind_group_layout_entries(&bind_group),
        vec![
            BindGroupLayoutEntry {
                binding: 0,
                visibility,
                ty: BindType::Uniform { dynamic: false }
            },
            BindGroupLayoutEntry { binding: 3, visibility, ty: sampled },
            BindGroupLayoutEntry {
                binding: 4,
                visibility,
                ty: BindType::Sampler { comparison: true }
            },
        ]
    );
    let empty = BindGroupDescriptor { id: BindGroupDescriptorId(2), index: 1, bindings: vec![] };
    assert_eq!(bind_group_layout_entries(&empty), vec![]);
}

#[test]
fn headless_cache_starts_empty() {
    let cache = HeadlessRenderResourceContext::new();
    assert_eq!(cache.get_resource_info(RenderResource(0)), None);
    assert!(!cache.has_swap_chain_output(WindowId(0)));
    assert!(!cache.has_bind_group_layout(BindGroupDescriptorId(0)));
    assert!(!cache.has_bind_group(BindGroupDescriptorId(0), RenderResourceSetId(0)));
    assert!(!cache.has_shader_module(ShaderHandle(0)));
    assert!(!cache.has_pipeline(PipelineHandle(0)));
    assert!(cache.created.is_empty());
}

#[test]
fn headless_cache_mints_a_handle_per_resource() {
    let mut cache = HeadlessRenderResourceContext::new();
    let buffer = cache.create_buffer(BufferInfo { size: 256 });
    let texture = cache.create_texture();
    let sampler = cache.create_sampler();
    assert!(buffer != texture && texture != sampler && buffer != sampler);
    assert_eq!(cache.get_resource_info(buffer), Some(ResourceInfo::Buffer(BufferInfo { size: 256 })));
    assert_eq!(cache.get_resource_info(texture), Some(ResourceInfo::Texture));
    assert_eq!(cache.get_resource_info(sampler), Some(ResourceInfo::Sampler));
    assert_eq!(cache.get_resource_info(RenderResource(3)), None);
    assert_eq!(
        cache.created,
        vec![
            BackendObject::Buffer(buffer),
            BackendObject::Texture(texture),
            BackendObject::Sampler(sampler),
        ]
    );
}

#[test]
fn headless_cache_swap_chain_outputs() {
    let mut cache = HeadlessRenderResourceContext::new();
    cache.set_swap_chain_output(WindowId(1));
    cache.set_swap_chain_output(WindowId(1));
    assert!(cache.has_swap_chain_output(WindowId(1)));
    assert!(!cache.has_swap_chain_output(WindowId(2)));
    assert_eq!(cache.swap_chain_outputs.len(), 1);
    // an output is no backend object of the cache
    assert!(cache.created.is_empty());
}

#[test]
fn headless_encoder_seals_what_was_recorded() {
    let mut cache = HeadlessRenderResourceContext::new();
    let source = cache.create_buffer(BufferInfo { size: 8 });
    let destination = cache.create_buffer(BufferInfo { size: 8 });
    let mut encoder = cache.create_command_encoder();
    assert!(encoder.commands.is_empty());
    cache.copy_buffer_to_buffer(&mut encoder, source, 0, destination, 4, 4);
    let recorded = format!("{:?}", encoder.commands);
    let buffer = HeadlessRenderResourceContext::finish_command_encoder(encoder);
    assert_eq!(buffer.commands.len(), 1);
    assert_eq!(format!("{:?}", buffer.commands), recorded);
}
