use vki::command::{
    BufferCopyView, Command, RenderPassColorAttachmentDescriptor, RenderPassDepthStencilAttachmentDescriptor,
    RenderPassDescriptor, TextureCopyView,
};
use vki::command_encoder::CommandEncoder;
use vki::flags::{
    BufferUsageFlags, ShaderStageFlags, TextureAspectFlags, TextureUsageFlags, BUFFER_USAGE_INDEX,
    BUFFER_USAGE_INDIRECT, BUFFER_USAGE_MAP_READ, BUFFER_USAGE_MAP_WRITE, BUFFER_USAGE_STORAGE,
    BUFFER_USAGE_TRANSFER_DST, BUFFER_USAGE_TRANSFER_SRC, BUFFER_USAGE_UNIFORM, BUFFER_USAGE_VERTEX,
    SHADER_STAGE_COMPUTE, SHADER_STAGE_VERTEX, TEXTURE_USAGE_OUTPUT_ATTACHMENT, TEXTURE_USAGE_SAMPLED,
};
use vki::resources::{
    Adapter, BindGroup, BindGroupBinding, BindGroupLayout, BindingResource, Buffer, BufferRange, ComputePipeline,
    Device, PipelineLayout, Sampler, Texture, TextureView,
};
use vki::texture::default_texture_view_descriptor;
use vki::types::{
    BindGroupLayoutBinding, BindingType, BufferDescriptor, ColorBits, Extensions, Extent3D, LoadOp, Origin3D,
    StoreOp, TextureDescriptor, TextureDimension, TextureFormat, TextureViewDescriptor, TextureViewDimension,
};

fn device() -> Device {
    Device {
        handle: 1,
        adapter: Adapter {
            physical_device: 2,
            name: String::from("test adapter"),
            extensions: Extensions { anisotropic_filtering: false },
            device_type: 2,
        },
    }
}

fn texture(handle: u64, width: u32, height: u32, sample_count: u32, format: TextureFormat) -> Texture {
    Texture {
        handle,
        descriptor: TextureDescriptor {
            sample_count,
            format,
            usage: TextureUsageFlags { bits: TEXTURE_USAGE_OUTPUT_ATTACHMENT },
            mip_level_count: 1,
            dimension: TextureDimension::D2,
            array_layer_count: 1,
            size: Extent3D { width, height, depth: 1 },
        },
    }
}

fn default_view(handle: u64, texture: Texture) -> TextureView {
    TextureView { handle, texture, descriptor: default_texture_view_descriptor(&texture.descriptor) }
}

fn buffer(handle: u64, usage: u32) -> Buffer {
    Buffer { handle, descriptor: BufferDescriptor { size: 1024, usage: BufferUsageFlags { bits: usage } } }
}

fn clear_color() -> ColorBits {
    ColorBits { r: 0.2f32.to_bits(), g: 0.2f32.to_bits(), b: 0.2f32.to_bits(), a: 1.0f32.to_bits() }
}

#[test]
fn create_command_encoder() {
    let device = device();
    let command_encoder = device.create_command_encoder().unwrap();

    let compute_pass = command_encoder.begin_compute_pass();
    let command_encoder = compute_pass.end_pass();

    let texture = texture(10, 1024, 1024, 1, TextureFormat::R8G8B8A8Unorm);
    let texture_view = default_view(11, texture);

    let render_pass = command_encoder.begin_render_pass(RenderPassDescriptor {
        color_attachments: vec![RenderPassColorAttachmentDescriptor {
            attachment: texture_view,
            resolve_target: None,
            load_op: LoadOp::Clear,
            store_op: StoreOp::Store,
            clear_color: clear_color(),
        }],
        depth_stencil_attachment: None,
    });
    let command_encoder = render_pass.end_pass();

    let command_buffer = command_encoder.finish().unwrap();

    assert_eq!(command_buffer.commands.len(), 4);
    assert!(matches!(command_buffer.commands[0], Command::BeginComputePass));
    assert!(matches!(command_buffer.commands[1], Command::EndComputePass));
    match &command_buffer.commands[2] {
        Command::BeginRenderPass { color_attachments, depth_stencil_attachment, width, height, sample_count } => {
            assert_eq!(color_attachments.len(), 1);
            assert_eq!(color_attachments[0].attachment, texture_view);
            assert!(depth_stencil_attachment.is_none());
            assert_eq!((*sample_count, *width, *height), (1, 1024, 1024));
        }
        other => panic!("unexpected command {:?}", other),
    }
    assert!(matches!(command_buffer.commands[3], Command::EndRenderPass));

    let usage = &command_buffer.resource_usages;
    assert_eq!(usage.per_pass.len(), 2);
    assert!(usage.per_pass[0].buffers.is_empty() && usage.per_pass[0].textures.is_empty());
    assert_eq!(usage.per_pass[1].textures, vec![(texture, TextureUsageFlags { bits: TEXTURE_USAGE_OUTPUT_ATTACHMENT })]);
    assert!(usage.top_level_buffers.is_empty());
}

#[test]
fn render_pass_takes_smallest_size_and_largest_sample_count() {
    let color = texture(1, 800, 600, 4, TextureFormat::B8G8R8A8Unorm);
    let resolve = texture(2, 640, 700, 1, TextureFormat::B8G8R8A8Unorm);
    let depth = texture(3, 1024, 480, 4, TextureFormat::D32FloatS8Uint);
    let mut depth_view = default_view(13, depth);
    depth_view.descriptor.aspect = TextureAspectFlags { bits: 2 };
    let pass = CommandEncoder::new().begin_render_pass(RenderPassDescriptor {
        color_attachments: vec![RenderPassColorAttachmentDescriptor {
            attachment: default_view(11, color),
            resolve_target: Some(default_view(12, resolve)),
            load_op: LoadOp::Clear,
            store_op: StoreOp::Store,
            clear_color: clear_color(),
        }],
        depth_stencil_attachment: Some(RenderPassDepthStencilAttachmentDescriptor {
            attachment: depth_view,
            depth_load_op: LoadOp::Clear,
            depth_store_op: StoreOp::Store,
            clear_depth_bits: 1.0f32.to_bits(),
            stencil_load_op: LoadOp::Clear,
            stencil_store_op: StoreOp::Store,
            clear_stencil: 0,
        }),
    });
    let buffer = pass.end_pass().finish().unwrap();
    match &buffer.commands[0] {
        Command::BeginRenderPass { width, height, sample_count, .. } => {
            assert_eq!((*sample_count, *width, *height), (4, 640, 480));
        }
        other => panic!("unexpected command {:?}", other),
    }
    let out = TextureUsageFlags { bits: TEXTURE_USAGE_OUTPUT_ATTACHMENT };
    assert_eq!(buffer.resource_usages.per_pass[0].textures, vec![(color, out), (resolve, out), (depth, out)]);
}

#[test]
fn render_pass_size_uses_base_mip_level_and_is_at_least_one() {
    let color = texture(1, 256, 1, 1, TextureFormat::R8G8B8A8Unorm);
    let mut view = default_view(2, color);
    view.descriptor.base_mip_level = 2;
    let pass = CommandEncoder::new().begin_render_pass(RenderPassDescriptor {
        color_attachments: vec![RenderPassColorAttachmentDescriptor {
            attachment: view,
            resolve_target: None,
            load_op: LoadOp::Load,
            store_op: StoreOp::Store,
            clear_color: clear_color(),
        }],
        depth_stencil_attachment: None,
    });
    let buffer = pass.end_pass().finish().unwrap();
    match &buffer.commands[0] {
        Command::BeginRenderPass { width, height, .. } => assert_eq!((*width, *height), (64, 1)),
        other => panic!("unexpected command {:?}", other),
    }
}

#[test]
fn copies_record_each_resource_once() {
    let mut encoder = CommandEncoder::new();
    let a = buffer(1, 0);
    let b = buffer(2, 0);
    encoder.copy_buffer_to_buffer(&a, 0, &b, 16, 64);
    encoder.copy_buffer_to_buffer(&b, 0, &a, 16, 64);
    let t = texture(3, 16, 16, 1, TextureFormat::R8Unorm);
    encoder.copy_buffer_to_texture(
        BufferCopyView { buffer: a, offset: 0, row_pitch: 16, image_height: 16 },
        TextureCopyView { texture: t, mip_level: 0, array_layer: 0, origin: Origin3D { x: 0, y: 0, z: 0 } },
        Extent3D { width: 16, height: 16, depth: 1 },
    );
    encoder.copy_texture_to_buffer(
        TextureCopyView { texture: t, mip_level: 0, array_layer: 0, origin: Origin3D { x: 0, y: 0, z: 0 } },
        BufferCopyView { buffer: b, offset: 0, row_pitch: 16, image_height: 16 },
        Extent3D { width: 16, height: 16, depth: 1 },
    );
    let cb = encoder.finish().unwrap();
    assert_eq!(cb.commands.len(), 4);
    match &cb.commands[0] {
        Command::CopyBufferToBuffer { src, dst, size_bytes } => {
            assert_eq!(src.buffer, a);
            assert_eq!(dst.buffer, b);
            assert_eq!(dst.offset, 16);
            assert_eq!(*size_bytes, 64);
        }
        other => panic!("unexpected command {:?}", other),
    }
    assert_eq!(cb.resource_usages.top_level_buffers, vec![a, b]);
    assert_eq!(cb.resource_usages.top_level_textures, vec![t]);
    assert!(cb.resource_usages.per_pass.is_empty());
}

#[test]
fn debug_labels_are_recorded() {
    let mut encoder = CommandEncoder::new();
    encoder.push_debug_group("push_debug_group");
    encoder.insert_debug_marker("insert_debug_marker");
    encoder.pop_debug_group();
    let mut pass = encoder.begin_compute_pass();
    pass.push_debug_group("compute_pass_encoder::push_debug_group");
    pass.insert_debug_marker("compute_pass_encoder::insert_debug_marker");
    pass.pop_debug_group();
    let cb = pass.end_pass().finish().unwrap();
    match &cb.commands[0] {
        Command::PushDebugGroup { group_label } => assert_eq!(group_label, "push_debug_group"),
        other => panic!("unexpected command {:?}", other),
    }
    match &cb.commands[5] {
        Command::InsertDebugMarker { marker_label } => {
            assert_eq!(marker_label, "compute_pass_encoder::insert_debug_marker")
        }
        other => panic!("unexpected command {:?}", other),
    }
    assert_eq!(cb.commands.len(), 8);
}

#[test]
fn push_constants_must_fit() {
    let mut pass = CommandEncoder::new().begin_compute_pass();
    let stages = ShaderStageFlags { bits: SHADER_STAGE_VERTEX };
    let value: [u8; 8] = [1, 2, 3, 4, 5, 6, 7, 8];
    assert!(pass.set_push_constants(stages, 120, &value).is_ok());
    let err = pass.set_push_constants(stages, 121, &value).unwrap_err();
    assert_eq!(err.to_code(), vki::vk::RESULT_ERROR_VALIDATION_FAILED_EXT);
    let cb = pass.end_pass().finish().unwrap();
    assert_eq!(cb.commands.len(), 3);
    match &cb.commands[1] {
        Command::SetPushConstants { offset_bytes, size_bytes, values, .. } => {
            assert_eq!((*offset_bytes, *size_bytes), (120, 8));
            assert_eq!(values.len(), 128);
            assert_eq!(&values[..8], &value);
            assert!(values[8..].iter().all(|b| *b == 0));
        }
        other => panic!("unexpected command {:?}", other),
    }
}

fn bind_group(layout: Vec<BindGroupLayoutBinding>, bindings: Vec<BindGroupBinding>) -> BindGroup {
    BindGroup { handle: 77, descriptor_pool: 78, layout: BindGroupLayout { handle: 79, bindings: layout }, bindings }
}

#[test]
fn bind_group_resources_are_used_by_the_pass() {
    let stages = ShaderStageFlags { bits: SHADER_STAGE_VERTEX };
    let uniform = buffer(1, BUFFER_USAGE_UNIFORM);
    let storage = buffer(2, BUFFER_USAGE_STORAGE);
    let sampled = texture(3, 8, 8, 1, TextureFormat::R8G8B8A8Unorm);
    let group = bind_group(
        vec![
            BindGroupLayoutBinding { binding: 0, visibility: stages, binding_type: BindingType::UniformBuffer },
            BindGroupLayoutBinding { binding: 1, visibility: stages, binding_type: BindingType::StorageBuffer },
            BindGroupLayoutBinding { binding: 2, visibility: stages, binding_type: BindingType::SampledTexture },
            BindGroupLayoutBinding { binding: 3, visibility: stages, binding_type: BindingType::Sampler },
        ],
        vec![
            BindGroupBinding { binding: 0, resource: BindingResource::Buffer(uniform, BufferRange { start: 0, end: 256 }) },
            BindGroupBinding { binding: 1, resource: BindingResource::Buffer(storage, BufferRange { start: 0, end: 64 }) },
            BindGroupBinding { binding: 2, resource: BindingResource::TextureView(default_view(4, sampled)) },
            BindGroupBinding { binding: 3, resource: BindingResource::Sampler(Sampler { handle: 5 }) },
        ],
    );
    let mut pass = CommandEncoder::new().begin_compute_pass();
    pass.set_bind_group(0, &group, Some(&[256, 512]));
    pass.set_bind_group(1, &group, None);
    let cb = pass.end_pass().finish().unwrap();
    match &cb.commands[1] {
        Command::SetBindGroup { index, bind_group, dynamic_offsets } => {
            assert_eq!((*index, *bind_group), (0, 77));
            assert_eq!(dynamic_offsets.as_deref(), Some(&[256u32, 512u32][..]));
        }
        other => panic!("unexpected command {:?}", other),
    }
    let pass_usage = &cb.resource_usages.per_pass[0];
    assert_eq!(
        pass_usage.buffers,
        vec![
            (uniform, BufferUsageFlags { bits: BUFFER_USAGE_UNIFORM }),
            (storage, BufferUsageFlags { bits: BUFFER_USAGE_STORAGE }),
        ]
    );
    assert_eq!(pass_usage.textures, vec![(sampled, TextureUsageFlags { bits: TEXTURE_USAGE_SAMPLED })]);
}

#[test]
fn vertex_and_index_buffers_are_tracked_in_render_passes() {
    let target = texture(1, 32, 32, 1, TextureFormat::R8G8B8A8Unorm);
    let mut pass = CommandEncoder::new().begin_render_pass(RenderPassDescriptor {
        color_attachments: vec![RenderPassColorAttachmentDescriptor {
            attachment: default_view(2, target),
            resolve_target: None,
            load_op: LoadOp::Clear,
            store_op: StoreOp::Store,
            clear_color: clear_color(),
        }],
        depth_stencil_attachment: None,
    });
    let vb = buffer(3, BUFFER_USAGE_VERTEX | BUFFER_USAGE_INDEX);
    pass.set_vertex_buffers(0, &[vb], &[16]);
    pass.set_index_buffer(&vb, 8);
    pass.draw_indexed(3, 1, 0, 0, 0);
    let cb = pass.end_pass().finish().unwrap();
    assert_eq!(
        cb.resource_usages.per_pass[0].buffers,
        vec![(vb, BufferUsageFlags { bits: BUFFER_USAGE_VERTEX | BUFFER_USAGE_INDEX })]
    );
    match &cb.commands[1] {
        Command::SetVertexBuffers { start_slot, buffers, offsets } => {
            assert_eq!(*start_slot, 0);
            assert_eq!(buffers, &vec![vb]);
            assert_eq!(offsets, &vec![16u64]);
        }
        other => panic!("unexpected command {:?}", other),
    }
    assert!(matches!(cb.commands[2], Command::SetIndexBuffer { offset: 8, .. }));
    assert!(matches!(cb.commands[3], Command::DrawIndexed { index_count: 3, instance_count: 1, .. }));
}

#[test]
fn view_descriptor_cube_dimension_is_kept() {
    let t = texture(1, 64, 64, 1, TextureFormat::R8G8B8A8Unorm);
    let descriptor = TextureViewDescriptor {
        format: TextureFormat::R8G8B8A8Unorm,
        dimension: TextureViewDimension::Cube,
        aspect: TextureAspectFlags { bits: 1 },
        base_mip_level: 0,
        mip_level_count: 1,
        base_array_layer: 0,
        array_layer_count: 6,
    };
    let plan = vki::texture::texture_view_plan(t.handle, &descriptor);
    assert_eq!(plan.view_type, vki::vk::IMAGE_VIEW_TYPE_CUBE);
    assert_eq!(plan.layer_count, 6);
}

#[test]
fn submit_command_buffer() {
    let device = device();
    let command_encoder = device.create_command_encoder().unwrap();
    let compute_pass = command_encoder.begin_compute_pass();
    let command_encoder = compute_pass.end_pass();

    let texture = texture(20, 1024, 1024, 1, TextureFormat::R8G8B8A8Unorm);
    let texture_view = default_view(21, texture);
    let render_pass = command_encoder.begin_render_pass(RenderPassDescriptor {
        color_attachments: vec![RenderPassColorAttachmentDescriptor {
            attachment: texture_view,
            resolve_target: None,
            load_op: LoadOp::Clear,
            store_op: StoreOp::Store,
            clear_color: clear_color(),
        }],
        depth_stencil_attachment: None,
    });
    let command_buffer = render_pass.end_pass().finish().unwrap();
    assert_eq!(command_buffer.commands.len(), 4);
    assert!(matches!(command_buffer.commands[0], Command::BeginComputePass));
    assert!(matches!(command_buffer.commands[1], Command::EndComputePass));
    assert!(matches!(command_buffer.commands[2], Command::BeginRenderPass { .. }));
    assert!(matches!(command_buffer.commands[3], Command::EndRenderPass));
    assert_eq!(command_buffer.resource_usages.per_pass.len(), 2);
    assert_eq!(
        command_buffer.resource_usages.per_pass[1].textures,
        vec![(texture, TextureUsageFlags { bits: TEXTURE_USAGE_OUTPUT_ATTACHMENT })]
    );
}

fn label_of(command: &Command) -> &str {
    match command {
        Command::PushDebugGroup { group_label } => group_label,
        Command::InsertDebugMarker { marker_label } => marker_label,
        other => panic!("unexpected command {:?}", other),
    }
}

#[test]
fn debug_markers() {
    let device = device();
    let mut encoder = device.create_command_encoder().unwrap();
    encoder.push_debug_group("push_debug_group");
    encoder.insert_debug_marker("insert_debug_marker");
    encoder.pop_debug_group();

    let mut compute_pass = encoder.begin_compute_pass();
    compute_pass.push_debug_group("compute_pass_encoder::push_debug_group");
    compute_pass.push_debug_group("compute_pass_encoder::insert_debug_marker");
    compute_pass.pop_debug_group();
    let encoder = compute_pass.end_pass();

    let mut render_pass =
        encoder.begin_render_pass(RenderPassDescriptor { color_attachments: vec![], depth_stencil_attachment: None });
    render_pass.push_debug_group("render_pass_encoder::push_debug_group");
    render_pass.push_debug_group("render_pass_encoder::insert_debug_marker");
    render_pass.pop_debug_group();
    let command_buffer = render_pass.end_pass().finish().unwrap();

    let c = &command_buffer.commands;
    assert_eq!(c.len(), 13);
    assert_eq!(label_of(&c[0]), "push_debug_group");
    assert_eq!(label_of(&c[1]), "insert_debug_marker");
    assert!(matches!(c[2], Command::PopDebugGroup));
    assert!(matches!(c[3], Command::BeginComputePass));
    assert_eq!(label_of(&c[4]), "compute_pass_encoder::push_debug_group");
    assert_eq!(label_of(&c[5]), "compute_pass_encoder::insert_debug_marker");
    assert!(matches!(c[6], Command::PopDebugGroup));
    assert!(matches!(c[7], Command::EndComputePass));
    assert!(matches!(c[8], Command::BeginRenderPass { .. }));
    assert_eq!(label_of(&c[9]), "render_pass_encoder::push_debug_group");
    assert_eq!(label_of(&c[10]), "render_pass_encoder::insert_debug_marker");
    assert!(matches!(c[11], Command::PopDebugGroup));
    assert!(matches!(c[12], Command::EndRenderPass));
}

fn compute_pipeline() -> ComputePipeline {
    ComputePipeline { handle: 90, layout: PipelineLayout { handle: 91 } }
}

fn storage_group(buffers: &[(u32, Buffer)]) -> BindGroup {
    let stages = ShaderStageFlags { bits: SHADER_STAGE_COMPUTE };
    bind_group(
        buffers
            .iter()
            .map(|(binding, _)| BindGroupLayoutBinding {
                binding: *binding,
                visibility: stages,
                binding_type: BindingType::StorageBuffer,
            })
            .collect(),
        buffers
            .iter()
            .map(|(binding, b)| BindGroupBinding {
                binding: *binding,
                resource: BindingResource::Buffer(*b, BufferRange { start: 0, end: b.descriptor.size }),
            })
            .collect(),
    )
}

#[test]
fn push_constants() {
    let data: &[u32] = &[1, 2];
    let data_byte_size = std::mem::size_of::<u32>() * data.len();
    let device = device();
    let mut encoder = device.create_command_encoder().unwrap();
    let read_buffer = Buffer {
        handle: 30,
        descriptor: BufferDescriptor {
            usage: BufferUsageFlags { bits: BUFFER_USAGE_MAP_READ | BUFFER_USAGE_TRANSFER_DST | BUFFER_USAGE_STORAGE },
            size: data_byte_size as u64,
        },
    };
    let bind_group = storage_group(&[(0, read_buffer)]);
    let stages = ShaderStageFlags { bits: SHADER_STAGE_COMPUTE };

    let mut compute_pass = encoder.begin_compute_pass();
    compute_pass.set_pipeline(&compute_pipeline());
    compute_pass.set_bind_group(0, &bind_group, None);
    compute_pass.set_push_constants(stages, 0, &data[0].to_ne_bytes()).unwrap();
    compute_pass.set_push_constants(stages, std::mem::size_of::<u32>(), &data[1].to_ne_bytes()).unwrap();
    compute_pass.dispatch(1, 1, 1);
    encoder = compute_pass.end_pass();
    let command_buffer = encoder.finish().unwrap();

    let c = &command_buffer.commands;
    assert_eq!(c.len(), 7);
    for (i, offset) in [(3usize, 0u32), (4, 4)].iter() {
        match &c[*i] {
            Command::SetPushConstants { stages: s, offset_bytes, size_bytes, values } => {
                assert_eq!(*s, stages);
                assert_eq!((*offset_bytes, *size_bytes), (*offset, 4));
                assert_eq!(&values[..4], &data[*offset as usize / 4].to_ne_bytes());
            }
            other => panic!("unexpected command {:?}", other),
        }
    }
    assert!(matches!(c[5], Command::Dispatch { x: 1, y: 1, z: 1 }));
    assert_eq!(
        command_buffer.resource_usages.per_pass[0].buffers,
        vec![(read_buffer, BufferUsageFlags { bits: BUFFER_USAGE_STORAGE })]
    );
}

#[test]
fn dispatch_indirect() {
    let data_byte_size: u64 = 16 * 4;
    let device = device();
    let mut encoder = device.create_command_encoder().unwrap();
    let storage = BUFFER_USAGE_STORAGE;
    let write_buffer = Buffer {
        handle: 40,
        descriptor: BufferDescriptor {
            usage: BufferUsageFlags { bits: BUFFER_USAGE_MAP_WRITE | BUFFER_USAGE_TRANSFER_SRC | storage },
            size: data_byte_size,
        },
    };
    let read_buffer = Buffer {
        handle: 41,
        descriptor: BufferDescriptor {
            usage: BufferUsageFlags { bits: BUFFER_USAGE_MAP_READ | BUFFER_USAGE_TRANSFER_DST | storage },
            size: data_byte_size,
        },
    };
    let indirect_buffer = Buffer {
        handle: 42,
        descriptor: BufferDescriptor {
            usage: BufferUsageFlags { bits: BUFFER_USAGE_INDIRECT | BUFFER_USAGE_TRANSFER_DST },
            size: 12,
        },
    };
    let bind_group = storage_group(&[(0, write_buffer), (1, read_buffer)]);

    let mut compute_pass = encoder.begin_compute_pass();
    compute_pass.set_pipeline(&compute_pipeline());
    compute_pass.set_bind_group(0, &bind_group, None);
    compute_pass.dispatch_indirect(&indirect_buffer, 0);
    encoder = compute_pass.end_pass();
    let command_buffer = encoder.finish().unwrap();

    let c = &command_buffer.commands;
    assert_eq!(c.len(), 5);
    match &c[3] {
        Command::DispatchIndirect { buffer, indirect_offset } => {
            assert_eq!(*buffer, indirect_buffer);
            assert_eq!(*indirect_offset, 0);
        }
        other => panic!("unexpected command {:?}", other),
    }
    let usages = &command_buffer.resource_usages.per_pass[0].buffers;
    assert!(usages.contains(&(write_buffer, BufferUsageFlags { bits: BUFFER_USAGE_STORAGE })));
    assert!(usages.contains(&(read_buffer, BufferUsageFlags { bits: BUFFER_USAGE_STORAGE })));
}

#[test]
fn copy_buffer_with_compute_shader() {
    let data: &[[f32; 4]] = &[[1.0, 2.0, 3.0, 4.0], [5.0, 6.0, 7.0, 8.0], [9.0, 10.0, 11.0, 12.0], [13.0, 14.0, 15.0, 16.0]];
    let data_byte_size = (std::mem::size_of::<[f32; 4]>() * data.len()) as u64;
    let device = device();
    let mut encoder = device.create_command_encoder().unwrap();
    let write_buffer = Buffer {
        handle: 50,
        descriptor: BufferDescriptor {
            usage: BufferUsageFlags { bits: BUFFER_USAGE_MAP_WRITE | BUFFER_USAGE_TRANSFER_SRC | BUFFER_USAGE_STORAGE },
            size: data_byte_size,
        },
    };
    let read_buffer = Buffer {
        handle: 51,
        descriptor: BufferDescriptor {
            usage: BufferUsageFlags { bits: BUFFER_USAGE_MAP_READ | BUFFER_USAGE_TRANSFER_DST | BUFFER_USAGE_STORAGE },
            size: data_byte_size,
        },
    };
    let bind_group = storage_group(&[(0, write_buffer), (1, read_buffer)]);
    let descriptor = vki::resources::BindGroupDescriptor {
        layout: bind_group.layout.clone(),
        bindings: bind_group.bindings.clone(),
    };
    let plan = device.create_bind_group(&descriptor).unwrap();
    assert_eq!(plan.pool_sizes.len(), 1);
    assert_eq!(plan.pool_sizes[0].descriptor_count, 2);
    assert_eq!(plan.writes.len(), 2);

    let mut compute_pass = encoder.begin_compute_pass();
    compute_pass.set_pipeline(&compute_pipeline());
    compute_pass.set_bind_group(0, &bind_group, None);
    compute_pass.dispatch(4, 1, 1);
    encoder = compute_pass.end_pass();
    let command_buffer = encoder.finish().unwrap();
    assert_eq!(command_buffer.commands.len(), 5);
    assert!(matches!(command_buffer.commands[3], Command::Dispatch { x: 4, y: 1, z: 1 }));
    assert_eq!(command_buffer.resource_usages.per_pass[0].buffers.len(), 2);
}

fn begin_extent(descriptor: RenderPassDescriptor) -> (u32, u32, u32) {
    let buffer = CommandEncoder::new().begin_render_pass(descriptor).end_pass().finish().unwrap();
    match &buffer.commands[0] {
        Command::BeginRenderPass { sample_count, width, height, .. } => (*sample_count, *width, *height),
        other => panic!("unexpected command {:?}", other),
    }
}

fn color_attachment(view: TextureView) -> RenderPassColorAttachmentDescriptor {
    RenderPassColorAttachmentDescriptor {
        attachment: view,
        resolve_target: None,
        load_op: LoadOp::Clear,
        store_op: StoreOp::Store,
        clear_color: clear_color(),
    }
}

#[test]
fn render_pass_size_is_the_smallest_attachment_size() {
    let narrow = texture(1, 1, 300, 1, TextureFormat::R8G8B8A8Unorm);
    let wide = texture(2, 512, 200, 1, TextureFormat::R8G8B8A8Unorm);
    let extent = begin_extent(RenderPassDescriptor {
        color_attachments: vec![color_attachment(default_view(3, narrow)), color_attachment(default_view(4, wide))],
        depth_stencil_attachment: None,
    });
    assert_eq!(extent, (1, 1, 200));

    let depth = texture(5, 640, 480, 2, TextureFormat::D32Float);
    let extent = begin_extent(RenderPassDescriptor {
        color_attachments: vec![],
        depth_stencil_attachment: Some(RenderPassDepthStencilAttachmentDescriptor {
            attachment: default_view(6, depth),
            depth_load_op: LoadOp::Clear,
            depth_store_op: StoreOp::Store,
            clear_depth_bits: 1.0f32.to_bits(),
            stencil_load_op: LoadOp::Load,
            stencil_store_op: StoreOp::Store,
            clear_stencil: 0,
        }),
    });
    assert_eq!(extent, (2, 640, 480));

    let extent = begin_extent(RenderPassDescriptor { color_attachments: vec![], depth_stencil_attachment: None });
    assert_eq!(extent, (1, 1, 1));
}
