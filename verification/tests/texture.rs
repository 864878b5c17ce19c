use vki::command::{BufferCopyView, Command, TextureBlitView, TextureCopyView};
use vki::resources::{Adapter, Buffer, Device, Texture};
use vki::types::Extensions;
use vki::flags::{
    BufferUsageFlags, BUFFER_USAGE_TRANSFER_DST, BUFFER_USAGE_TRANSFER_SRC, TextureUsageFlags, TEXTURE_USAGE_OUTPUT_ATTACHMENT, TEXTURE_USAGE_PRESENT, TEXTURE_USAGE_SAMPLED,
    TEXTURE_USAGE_TRANSFER_DST, TEXTURE_USAGE_TRANSFER_SRC,
};
use vki::texture::{
    default_texture_view_descriptor, image_usage, is_depth, is_depth_or_stencil, is_stencil, pixel_size,
    Subresource, SubresourceUsageTracker,
};
use vki::types::{
    BufferDescriptor, Extent3D, FilterMode, Origin3D, TextureDescriptor, TextureDimension, TextureFormat,
    TextureViewDimension,
};
use vki::vk;

fn device() -> Device {
    Device {
        handle: 1,
        adapter: Adapter {
            physical_device: 2,
            name: String::from("gpu"),
            extensions: Extensions { anisotropic_filtering: false },
            device_type: vk::PHYSICAL_DEVICE_TYPE_DISCRETE_GPU,
        },
    }
}

fn descriptor(format: TextureFormat, usage: u32, layers: u32, mips: u32, size: u32) -> TextureDescriptor {
    TextureDescriptor {
        size: Extent3D { width: size, height: size, depth: 1 },
        array_layer_count: layers,
        mip_level_count: mips,
        sample_count: 1,
        dimension: TextureDimension::D2,
        format,
        usage: TextureUsageFlags { bits: usage },
    }
}

#[test]
fn create_texture() {
    let d = descriptor(TextureFormat::R8G8B8A8Unorm, TEXTURE_USAGE_SAMPLED | TEXTURE_USAGE_TRANSFER_DST, 1, 1, 1024);
    let plan = device().create_texture(&d).unwrap();
    assert_eq!(plan.flags, 0);
    assert_eq!(plan.image_type, vk::IMAGE_TYPE_2D);
    assert_eq!(plan.format, vk::FORMAT_R8G8B8A8_UNORM);
    assert_eq!(plan.usage, vk::IMAGE_USAGE_SAMPLED | vk::IMAGE_USAGE_TRANSFER_DST);
    assert_eq!(plan.samples, 1);
    let mut bad = d;
    bad.sample_count = 5;
    assert_eq!(device().create_texture(&bad).unwrap_err().to_code(), vk::RESULT_ERROR_VALIDATION_FAILED_EXT);
}

#[test]
fn create_texture_and_cube_view() {
    let d = descriptor(TextureFormat::R8G8B8A8Unorm, TEXTURE_USAGE_SAMPLED, 6, 1, 1024);
    let plan = device().create_texture(&d).unwrap();
    assert_eq!(plan.flags, vk::IMAGE_CREATE_CUBE_COMPATIBLE);
    assert_eq!(plan.array_layers, 6);
}

#[test]
fn create_default_texture_view() {
    let d = descriptor(TextureFormat::R8G8B8A8Unorm, TEXTURE_USAGE_SAMPLED, 1, 4, 1024);
    let view = default_texture_view_descriptor(&d);
    assert_eq!(view.dimension, TextureViewDimension::D2);
    assert_eq!((view.base_mip_level, view.mip_level_count, view.base_array_layer, view.array_layer_count), (0, 4, 0, 1));
    assert_eq!(view.aspect.bits, vk::IMAGE_ASPECT_COLOR);
}

#[test]
fn create_depth_stencil_texture_and_view() {
    let d = descriptor(TextureFormat::D32FloatS8Uint, TEXTURE_USAGE_OUTPUT_ATTACHMENT, 1, 1, 1024);
    assert!(is_depth(TextureFormat::D32FloatS8Uint) && is_stencil(TextureFormat::D32FloatS8Uint));
    assert!(is_depth_or_stencil(TextureFormat::D32Float) && !is_stencil(TextureFormat::D32Float));
    let plan = device().create_texture(&d).unwrap();
    assert_eq!(plan.usage, vk::IMAGE_USAGE_DEPTH_STENCIL_ATTACHMENT);
    let view = default_texture_view_descriptor(&d);
    assert_eq!(view.aspect.bits, vk::IMAGE_ASPECT_DEPTH | vk::IMAGE_ASPECT_STENCIL);
}

#[test]
fn pixel_sizes() {
    assert_eq!(pixel_size(TextureFormat::R8Unorm), 1);
    assert_eq!(pixel_size(TextureFormat::R8G8Uint), 2);
    assert_eq!(pixel_size(TextureFormat::B8G8R8A8UnormSRGB), 4);
    assert_eq!(image_usage(TextureUsageFlags { bits: TEXTURE_USAGE_OUTPUT_ATTACHMENT }, TextureFormat::R8Unorm), vk::IMAGE_USAGE_COLOR_ATTACHMENT);
}

#[test]
fn subresource_transitions_record_barriers() {
    let mut tracker = SubresourceUsageTracker::new(3, 2, TextureFormat::R8G8B8A8Unorm);
    let dst = TextureUsageFlags { bits: TEXTURE_USAGE_TRANSFER_DST };
    let src = TextureUsageFlags { bits: TEXTURE_USAGE_TRANSFER_SRC };
    // the first use of every subresource still needs a layout transition
    let t = tracker.transition_usage_now(dst, None);
    assert_eq!(t.image_barriers().len(), 6);
    assert_eq!(t.image_barriers()[4].mip_level, 1);
    assert_eq!(t.image_barriers()[4].array_layer, 1);
    assert_eq!(t.image_barriers()[0].old_layout, vk::IMAGE_LAYOUT_UNDEFINED);
    assert_eq!(t.image_barriers()[0].new_layout, vk::IMAGE_LAYOUT_TRANSFER_DST_OPTIMAL);
    assert_eq!(t.dst_stage_mask, vk::PIPELINE_STAGE_TRANSFER);
    // one subresource
    let t = tracker.transition_usage_now(src, Some(Subresource { mip_level: 2, array_layer: 0 }));
    assert_eq!(t.image_barriers().len(), 1);
    assert_eq!((t.image_barriers()[0].mip_level, t.image_barriers()[0].array_layer), (2, 0));
    assert_eq!(t.image_barriers()[0].old_layout, vk::IMAGE_LAYOUT_TRANSFER_DST_OPTIMAL);
    assert_eq!(t.image_barriers()[0].new_layout, vk::IMAGE_LAYOUT_TRANSFER_SRC_OPTIMAL);
    // moving again to the same read-only usage is free
    let t = tracker.transition_usage_now(src, Some(Subresource { mip_level: 2, array_layer: 0 }));
    assert!(t.image_barriers().is_empty());
    assert_eq!(t.src_stage_mask, 0);
}

#[test]
fn present_is_read_only() {
    let mut tracker = SubresourceUsageTracker::new(1, 1, TextureFormat::B8G8R8A8UnormSRGB);
    let present = TextureUsageFlags { bits: TEXTURE_USAGE_PRESENT };
    assert_eq!(tracker.transition_usage_now(present, None).image_barriers().len(), 1);
    assert!(tracker.transition_usage_now(present, None).image_barriers().is_empty());
}

#[test]
fn texture_default_view_plan_covers_the_texture() {
    let d = descriptor(TextureFormat::D32FloatS8Uint, TEXTURE_USAGE_OUTPUT_ATTACHMENT, 6, 3, 256);
    let texture = Texture { handle: 42, descriptor: d };
    let plan = texture.create_default_view();
    assert_eq!(plan.image, 42);
    assert_eq!(plan.format, vk::FORMAT_D32_SFLOAT_S8_UINT);
    assert_eq!(plan.view_type, vk::IMAGE_VIEW_TYPE_2D);
    assert_eq!(plan.aspect_mask, vk::IMAGE_ASPECT_DEPTH | vk::IMAGE_ASPECT_STENCIL);
    assert_eq!((plan.base_mip_level, plan.level_count, plan.base_array_layer, plan.layer_count), (0, 3, 0, 6));
    let mut cube = default_texture_view_descriptor(&d);
    cube.dimension = TextureViewDimension::Cube;
    cube.base_array_layer = 0;
    cube.mip_level_count = 1;
    let cube_plan = texture.create_view(cube);
    assert_eq!(cube_plan.view_type, vk::IMAGE_VIEW_TYPE_CUBE);
    assert_eq!(cube_plan.level_count, 1);
}

#[test]
fn create_depth_texture_and_view() {
    let device = device();
    let d = descriptor(TextureFormat::D32Float, TEXTURE_USAGE_OUTPUT_ATTACHMENT, 1, 1, 1024);
    let plan = device.create_texture(&d).unwrap();
    assert_eq!(plan.format, vk::FORMAT_D32_SFLOAT);
    assert_eq!(plan.usage, vk::IMAGE_USAGE_DEPTH_STENCIL_ATTACHMENT);
    let texture = Texture { handle: 5, descriptor: d };
    let view = texture.create_default_view();
    assert_eq!(view.aspect_mask, vk::IMAGE_ASPECT_DEPTH);
    assert_eq!(view.format, vk::FORMAT_D32_SFLOAT);
}

fn copy_view(texture: Texture) -> TextureCopyView {
    TextureCopyView { texture, mip_level: 0, array_layer: 0, origin: Origin3D { x: 0, y: 0, z: 0 } }
}

#[test]
fn copy_texture_to_texture() {
    let device = device();
    let size = Extent3D { width: 1024, height: 1024, depth: 1 };
    let d1 = descriptor(TextureFormat::R8G8B8A8Unorm, TEXTURE_USAGE_TRANSFER_SRC, 1, 1, 1024);
    let d2 = descriptor(TextureFormat::R8G8B8A8Unorm, TEXTURE_USAGE_SAMPLED | TEXTURE_USAGE_TRANSFER_DST, 1, 1, 1024);
    assert!(device.create_texture(&d1).is_ok() && device.create_texture(&d2).is_ok());
    let texture1 = Texture { handle: 1, descriptor: d1 };
    let texture2 = Texture { handle: 2, descriptor: d2 };

    let mut encoder = device.create_command_encoder().unwrap();
    encoder.copy_texture_to_texture(copy_view(texture1), copy_view(texture2), size);
    let command_buffer = encoder.finish().unwrap();
    assert_eq!(command_buffer.commands.len(), 1);
    match &command_buffer.commands[0] {
        Command::CopyTextureToTexture { src, dst, size_texels } => {
            assert_eq!(src.texture, texture1);
            assert_eq!(dst.texture, texture2);
            assert_eq!(*size_texels, size);
        }
        other => panic!("unexpected command {:?}", other),
    }
    assert_eq!(command_buffer.resource_usages.top_level_textures, vec![texture1, texture2]);
}

#[test]
fn blit_texture_to_texture_generate_mipmaps() {
    let device = device();
    let (width, height): (u32, u32) = (1024, 1024);
    let mip_level_count = (width.max(height) as f32).log2().floor() as u32 + 1;
    let d = descriptor(
        TextureFormat::R8G8B8A8Unorm,
        TEXTURE_USAGE_SAMPLED | TEXTURE_USAGE_TRANSFER_SRC | TEXTURE_USAGE_TRANSFER_DST,
        1,
        mip_level_count,
        1024,
    );
    assert_eq!(device.create_texture(&d).unwrap().mip_levels, 11);
    let texture = Texture { handle: 3, descriptor: d };

    let mut encoder = device.create_command_encoder().unwrap();
    let (mut mip_width, mut mip_height) = (width, height);
    for i in 1..mip_level_count {
        let src_bounds = [Origin3D { x: 0, y: 0, z: 0 }, Origin3D { x: mip_width as i32, y: mip_height as i32, z: 1 }];
        if mip_width > 1 {
            mip_width /= 2;
        }
        if mip_height > 1 {
            mip_height /= 2;
        }
        let dst_bounds = [Origin3D { x: 0, y: 0, z: 0 }, Origin3D { x: mip_width as i32, y: mip_height as i32, z: 1 }];
        encoder.blit_texture_to_texture(
            TextureBlitView { texture, mip_level: i - 1, array_layer: 0, bounds: src_bounds },
            TextureBlitView { texture, mip_level: i, array_layer: 0, bounds: dst_bounds },
            FilterMode::Linear,
        );
    }
    let command_buffer = encoder.finish().unwrap();
    assert_eq!(command_buffer.commands.len(), 10);
    match &command_buffer.commands[9] {
        Command::BlitTextureToTexture { src, dst, filter } => {
            assert_eq!((src.mip_level, dst.mip_level), (9, 10));
            assert_eq!(src.bounds_texels[1], Origin3D { x: 2, y: 2, z: 1 });
            assert_eq!(dst.bounds_texels[1], Origin3D { x: 1, y: 1, z: 1 });
            assert_eq!(*filter, FilterMode::Linear);
        }
        other => panic!("unexpected command {:?}", other),
    }
    assert_eq!(command_buffer.resource_usages.top_level_textures, vec![texture]);
}

fn buffer_4_bytes_per_texel(handle: u64, usage: u32) -> Buffer {
    Buffer { handle, descriptor: BufferDescriptor { size: 1024 * 1024 * 4, usage: BufferUsageFlags { bits: usage } } }
}

#[test]
fn copy_buffer_to_texture() {
    let device = device();
    let size = Extent3D { width: 1024, height: 1024, depth: 1 };
    let buffer1 = buffer_4_bytes_per_texel(6, BUFFER_USAGE_TRANSFER_SRC);
    let texture1 = Texture {
        handle: 7,
        descriptor: descriptor(TextureFormat::R8G8B8A8Unorm, TEXTURE_USAGE_TRANSFER_DST, 1, 1, 1024),
    };
    let src = BufferCopyView { buffer: buffer1, row_pitch: 1024, image_height: 1024, offset: 0 };
    let mut encoder = device.create_command_encoder().unwrap();
    encoder.copy_buffer_to_texture(src, copy_view(texture1), size);
    let command_buffer = encoder.finish().unwrap();
    match &command_buffer.commands[0] {
        Command::CopyBufferToTexture { src, dst, size_texels } => {
            assert_eq!((src.buffer, src.row_pitch, src.image_height, src.offset), (buffer1, 1024, 1024, 0));
            assert_eq!(dst.texture, texture1);
            assert_eq!(*size_texels, size);
        }
        other => panic!("unexpected command {:?}", other),
    }
    assert_eq!(command_buffer.resource_usages.top_level_buffers, vec![buffer1]);
    assert_eq!(command_buffer.resource_usages.top_level_textures, vec![texture1]);
}

#[test]
fn copy_texture_to_buffer() {
    let device = device();
    let size = Extent3D { width: 1024, height: 1024, depth: 1 };
    let buffer1 = buffer_4_bytes_per_texel(8, BUFFER_USAGE_TRANSFER_DST);
    let texture1 = Texture {
        handle: 9,
        descriptor: descriptor(TextureFormat::R8G8B8A8Unorm, TEXTURE_USAGE_TRANSFER_SRC, 1, 1, 1024),
    };
    let dst = BufferCopyView { buffer: buffer1, row_pitch: 1024, image_height: 1024, offset: 0 };
    let mut encoder = device.create_command_encoder().unwrap();
    encoder.copy_texture_to_buffer(copy_view(texture1), dst, size);
    let command_buffer = encoder.finish().unwrap();
    match &command_buffer.commands[0] {
        Command::CopyTextureToBuffer { src, dst, size_texels } => {
            assert_eq!(src.texture, texture1);
            assert_eq!((dst.buffer, dst.row_pitch, dst.image_height), (buffer1, 1024, 1024));
            assert_eq!(*size_texels, size);
        }
        other => panic!("unexpected command {:?}", other),
    }
    assert_eq!(command_buffer.resource_usages.top_level_buffers, vec![buffer1]);
    assert_eq!(command_buffer.resource_usages.top_level_textures, vec![texture1]);
}
