use vki::resources::{Adapter, Device};
use vki::types::Extensions;
use vki::binding::{
    bind_group_writes, descriptor_pool_sizes, find_layout_binding, DescriptorPoolSize,
    DescriptorWriteInfo,
};
use vki::flags::{
    BufferUsageFlags, ShaderStageFlags, TextureAspectFlags, TextureUsageFlags, BUFFER_USAGE_STORAGE,
    BUFFER_USAGE_TRANSFER_DST, BUFFER_USAGE_UNIFORM, SHADER_STAGE_FRAGMENT, SHADER_STAGE_VERTEX,
    TEXTURE_USAGE_SAMPLED,
};
use vki::resources::{
    BindGroupBinding, BindGroupDescriptor, BindGroupLayout, BindGroupLayoutDescriptor, BindingResource, Buffer, BufferRange, BufferView, Sampler,
    Texture, TextureView,
};
use vki::types::{
    BindGroupLayoutBinding, BindingType, BufferDescriptor, Extent3D, TextureDescriptor, TextureDimension,
    TextureFormat, TextureViewDescriptor, TextureViewDimension,
};
use vki::vk;

fn device() -> Device {
    Device {
        handle: 1,
        adapter: Adapter {
            physical_device: 2,
            name: String::from("gpu"),
            extensions: Extensions { anisotropic_filtering: false },
            device_type: vk::PHYSICAL_DEVICE_TYPE_DISCRETE_GPU,
        },
    }
}

fn layout_binding(binding: u32, stages: u32, binding_type: BindingType) -> BindGroupLayoutBinding {
    BindGroupLayoutBinding { binding, visibility: ShaderStageFlags { bits: stages }, binding_type }
}

#[test]
fn create_bind_group_layout() {
    let bindings = [layout_binding(0, SHADER_STAGE_VERTEX, BindingType::UniformBuffer)];
    let vk_bindings = device().create_bind_group_layout(&BindGroupLayoutDescriptor { bindings: &bindings });
    assert_eq!(vk_bindings.len(), 1);
    assert_eq!(vk_bindings[0].binding, 0);
    assert_eq!(vk_bindings[0].descriptor_type, vk::DESCRIPTOR_TYPE_UNIFORM_BUFFER);
    assert_eq!(vk_bindings[0].descriptor_count, 1);
    assert_eq!(vk_bindings[0].stage_flags, vk::SHADER_STAGE_VERTEX);
}

#[test]
fn create_bind_group() {
    let buffer = Buffer {
        handle: 1,
        descriptor: BufferDescriptor { usage: BufferUsageFlags { bits: BUFFER_USAGE_UNIFORM | BUFFER_USAGE_TRANSFER_DST }, size: 1024 },
    };
    let texel_buffer = Buffer {
        handle: 2,
        descriptor: BufferDescriptor { usage: BufferUsageFlags { bits: BUFFER_USAGE_STORAGE }, size: 1024 },
    };
    let texel_buffer_view = BufferView { handle: 3, buffer: texel_buffer };
    let sampler = Sampler { handle: 4 };
    let texture = Texture {
        handle: 5,
        descriptor: TextureDescriptor {
            size: Extent3D { width: 256, height: 256, depth: 1 },
            array_layer_count: 1,
            mip_level_count: 1,
            sample_count: 1,
            dimension: TextureDimension::D2,
            format: TextureFormat::R8G8B8A8Unorm,
            usage: TextureUsageFlags { bits: TEXTURE_USAGE_SAMPLED },
        },
    };
    let texture_view = TextureView {
        handle: 6,
        texture,
        descriptor: TextureViewDescriptor {
            format: TextureFormat::R8G8B8A8Unorm,
            dimension: TextureViewDimension::D2,
            aspect: TextureAspectFlags { bits: 1 },
            base_mip_level: 0,
            mip_level_count: 1,
            base_array_layer: 0,
            array_layer_count: 1,
        },
    };
    let layout = BindGroupLayout {
        handle: 7,
        bindings: vec![
            layout_binding(0, SHADER_STAGE_VERTEX, BindingType::UniformBuffer),
            layout_binding(1, SHADER_STAGE_FRAGMENT, BindingType::Sampler),
            layout_binding(2, SHADER_STAGE_FRAGMENT, BindingType::SampledTexture),
            layout_binding(3, SHADER_STAGE_FRAGMENT, BindingType::StorageTexelBuffer),
        ],
    };
    let descriptor = BindGroupDescriptor {
        layout: layout.clone(),
        bindings: vec![
            BindGroupBinding { binding: 0, resource: BindingResource::Buffer(buffer, BufferRange { start: 0, end: 1024 }) },
            BindGroupBinding { binding: 1, resource: BindingResource::Sampler(sampler) },
            BindGroupBinding { binding: 2, resource: BindingResource::TextureView(texture_view) },
            BindGroupBinding { binding: 3, resource: BindingResource::BufferView(texel_buffer_view) },
        ],
    };
    let writes = bind_group_writes(&descriptor).unwrap();
    assert_eq!(writes.len(), 4);
    assert_eq!(writes[0].descriptor_type, vk::DESCRIPTOR_TYPE_UNIFORM_BUFFER);
    assert_eq!(writes[0].info, DescriptorWriteInfo::Buffer { buffer: 1, offset: 0, range: 1024 });
    assert_eq!(writes[1].info, DescriptorWriteInfo::Sampler { sampler: 4 });
    assert_eq!(writes[3].info, DescriptorWriteInfo::TexelBufferView { buffer_view: 3 });
    assert_eq!(writes[3].descriptor_type, vk::DESCRIPTOR_TYPE_STORAGE_TEXEL_BUFFER);

    let sizes = descriptor_pool_sizes(&layout.bindings);
    assert_eq!(sizes.len(), 4);
    assert!(sizes.contains(&DescriptorPoolSize { descriptor_type: vk::DESCRIPTOR_TYPE_SAMPLER, descriptor_count: 1 }));

    // a sampler where a uniform buffer belongs is refused with a message
    let mut wrong = descriptor.clone();
    wrong.bindings[0] = BindGroupBinding { binding: 0, resource: BindingResource::Sampler(sampler) };
    assert!(matches!(bind_group_writes(&wrong).unwrap_err().kind, vki::error::ErrorKind::Message(_)));
}

#[test]
fn layout_bindings_are_found_by_position_then_number() {
    let bindings = [
        layout_binding(4, SHADER_STAGE_VERTEX, BindingType::UniformBuffer),
        layout_binding(2, SHADER_STAGE_VERTEX, BindingType::Sampler),
        layout_binding(2, SHADER_STAGE_VERTEX, BindingType::SampledTexture),
    ];
    assert_eq!(find_layout_binding(2, 2, &bindings).map(|b| b.binding_type), Some(BindingType::SampledTexture));
    assert_eq!(find_layout_binding(0, 2, &bindings).map(|b| b.binding_type), Some(BindingType::Sampler));
    assert!(find_layout_binding(0, 9, &bindings).is_none());
}

#[test]
fn created_bind_group_keeps_the_descriptor_bindings() {
    let stages = ShaderStageFlags { bits: SHADER_STAGE_VERTEX };
    let layout = BindGroupLayout {
        handle: 5,
        bindings: vec![BindGroupLayoutBinding { binding: 0, visibility: stages, binding_type: BindingType::Sampler }],
    };
    let bindings = vec![BindGroupBinding { binding: 0, resource: BindingResource::Sampler(Sampler { handle: 8 }) }];
    let descriptor = BindGroupDescriptor { layout: layout.clone(), bindings: bindings.clone() };
    let group = device().created_bind_group(descriptor, 6, 7);
    assert_eq!((group.handle, group.descriptor_pool), (6, 7));
    assert_eq!(group.bindings(), &bindings[..]);
    assert_eq!(group.layout.handle, 5);
}

#[test]
fn an_invalid_binding_fails_even_in_a_large_bind_group() {
    let sampler_layout: Vec<BindGroupLayoutBinding> =
        (0..18).map(|b| layout_binding(b, SHADER_STAGE_VERTEX, BindingType::Sampler)).collect();
    let mut bindings: Vec<BindGroupBinding> = (0..18)
        .map(|b| BindGroupBinding { binding: b, resource: BindingResource::Sampler(Sampler { handle: 100 + b as u64 }) })
        .collect();
    bindings[3].binding = 99;
    let descriptor = BindGroupDescriptor { layout: BindGroupLayout { handle: 5, bindings: sampler_layout }, bindings };
    let err = device().create_bind_group(&descriptor).unwrap_err();
    assert!(matches!(err.kind, vki::error::ErrorKind::Message(_)));
}
