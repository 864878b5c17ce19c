use vki::resources::{Adapter, Device};
use vki::types::Extensions;
use vki::fenced_deleter::{FencedDeleter, Resource};
use vki::resources::{Surface, Swapchain, SwapchainDescriptor, Texture, TextureView};
use vki::serial::Serial;
use vki::swapchain::{
    acquire_step, surface_format_check, surface_image_count, surface_image_extent, surface_present_mode,
    swapchain_texture_descriptor, AcquireResult, AcquireStep, Extent2D, SurfaceCapabilities,
    SurfaceError, SurfaceFormat,
};
use vki::types::TextureFormat;
use vki::vk;

fn device() -> Device {
    Device {
        handle: 1,
        adapter: Adapter {
            physical_device: 2,
            name: String::from("gpu"),
            extensions: Extensions { anisotropic_filtering: false },
            device_type: vk::PHYSICAL_DEVICE_TYPE_DISCRETE_GPU,
        },
    }
}

fn caps() -> SurfaceCapabilities {
    SurfaceCapabilities {
        min_image_count: 2,
        max_image_count: 8,
        current_extent: Extent2D { width: 800, height: 600 },
        min_image_extent: Extent2D { width: 1, height: 1 },
        max_image_extent: Extent2D { width: 4096, height: 4096 },
        supported_transforms: vk::SURFACE_TRANSFORM_IDENTITY,
        supported_usage_flags: vk::IMAGE_USAGE_COLOR_ATTACHMENT | vk::IMAGE_USAGE_TRANSFER_DST,
    }
}

fn srgb() -> SurfaceFormat {
    SurfaceFormat { format: vk::FORMAT_B8G8R8A8_SRGB, color_space: vk::COLOR_SPACE_SRGB_NONLINEAR }
}

#[test]
fn create_swapchain() {
    let descriptor = SwapchainDescriptor::default_with_surface(&Surface { handle: 9 });
    let modes = [vk::PRESENT_MODE_FIFO, vk::PRESENT_MODE_MAILBOX];
    let plan = device().create_swapchain(&descriptor, &caps(), &[srgb()], &modes, 0).unwrap();
    assert_eq!(plan.surface, 9);
    assert_eq!(plan.min_image_count, 3);
    assert_eq!(plan.image_extent, Extent2D { width: 800, height: 600 });
    assert_eq!(plan.image_format, srgb());
    assert_eq!(plan.image_usage, vk::IMAGE_USAGE_COLOR_ATTACHMENT);
    assert_eq!(plan.present_mode, vk::PRESENT_MODE_MAILBOX);
    assert_eq!(plan.pre_transform, vk::SURFACE_TRANSFORM_IDENTITY);
    assert_eq!(plan.old_swapchain, 0);
}

#[test]
fn swapchain_errors_come_in_order() {
    let descriptor = SwapchainDescriptor::default_with_surface(&Surface { handle: 9 });
    let unorm = SurfaceFormat { format: vk::FORMAT_B8G8R8A8_UNORM, color_space: vk::COLOR_SPACE_SRGB_NONLINEAR };
    let mut c = caps();
    c.supported_usage_flags = 0;
    c.supported_transforms = 0;
    match device().create_swapchain(&descriptor, &c, &[unorm], &[], 0) {
        Err(SurfaceError::UnsupportedFormat(f)) => assert_eq!(f, srgb()),
        other => panic!("unexpected {:?}", other.map(|p| p.surface)),
    }
    match device().create_swapchain(&descriptor, &c, &[srgb()], &[], 0) {
        Err(SurfaceError::UnsupportedImageUsageFlags(u)) => assert_eq!(u, vk::IMAGE_USAGE_COLOR_ATTACHMENT),
        other => panic!("unexpected {:?}", other.map(|p| p.surface)),
    }
    c.supported_usage_flags = vk::IMAGE_USAGE_COLOR_ATTACHMENT;
    match device().create_swapchain(&descriptor, &c, &[srgb()], &[], 0) {
        Err(SurfaceError::UnsupportedImageTransformFlags(t)) => assert_eq!(t, vk::SURFACE_TRANSFORM_IDENTITY),
        other => panic!("unexpected {:?}", other.map(|p| p.surface)),
    }
}

#[test]
fn image_count_and_extent() {
    let mut c = caps();
    assert_eq!(surface_image_count(&c), 3);
    c.max_image_count = 2;
    assert_eq!(surface_image_count(&c), 2);
    c.max_image_count = 0;
    assert_eq!(surface_image_count(&c), 3);
    c.current_extent = Extent2D { width: 0, height: 0 };
    c.min_image_extent = Extent2D { width: 100, height: 100 };
    c.max_image_extent = Extent2D { width: 1000, height: 500 };
    assert_eq!(surface_image_extent(&c, Extent2D { width: 50, height: 700 }), Extent2D { width: 100, height: 500 });
    assert_eq!(surface_image_extent(&caps(), Extent2D { width: 1, height: 1 }), Extent2D { width: 800, height: 600 });
}

#[test]
fn formats_and_present_modes() {
    let undefined = SurfaceFormat { format: vk::FORMAT_UNDEFINED, color_space: vk::COLOR_SPACE_SRGB_NONLINEAR };
    assert!(surface_format_check(&[undefined], srgb()).is_ok());
    assert!(surface_format_check(&[], srgb()).is_err());
    assert_eq!(surface_present_mode(&[vk::PRESENT_MODE_FIFO]), vk::PRESENT_MODE_FIFO);
    assert_eq!(surface_present_mode(&[]), vk::PRESENT_MODE_FIFO);
    let d = swapchain_texture_descriptor(Extent2D { width: 640, height: 480 }, TextureFormat::B8G8R8A8UnormSRGB);
    assert_eq!((d.size.width, d.size.height, d.size.depth, d.array_layer_count), (640, 480, 1, 1));
}

#[test]
fn acquire_retries_on_timeout() {
    assert_eq!(acquire_step(AcquireResult::Acquired { index: 2, suboptimal: true }), AcquireStep::UseImage(2));
    assert_eq!(acquire_step(AcquireResult::Failed(vk::RESULT_TIMEOUT)), AcquireStep::Retry);
    assert_eq!(
        acquire_step(AcquireResult::Failed(vk::RESULT_ERROR_OUT_OF_DATE_KHR)),
        AcquireStep::Fail(vk::RESULT_ERROR_OUT_OF_DATE_KHR)
    );
}

#[test]
fn supported_swapchain_formats_keep_srgb_color_space() {
    let device = vki::resources::Device {
        handle: 1,
        adapter: vki::resources::Adapter {
            physical_device: 2,
            name: String::from("a"),
            extensions: vki::types::Extensions { anisotropic_filtering: true },
            device_type: 1,
        },
    };
    let other = SurfaceFormat { format: vk::FORMAT_R8G8B8A8_UNORM, color_space: 1000104002 };
    let unorm = SurfaceFormat { format: vk::FORMAT_B8G8R8A8_UNORM, color_space: vk::COLOR_SPACE_SRGB_NONLINEAR };
    assert_eq!(
        device.get_supported_swapchain_formats(&[srgb(), other, unorm]),
        vec![TextureFormat::B8G8R8A8UnormSRGB, TextureFormat::B8G8R8A8Unorm]
    );
}

#[test]
fn acquire_next_image() {
    let d = swapchain_texture_descriptor(Extent2D { width: 640, height: 480 }, TextureFormat::B8G8R8A8UnormSRGB);
    let view_descriptor = vki::texture::default_texture_view_descriptor(&d);
    let textures: Vec<Texture> = (0..3).map(|i| Texture { handle: 100 + i, descriptor: d }).collect();
    let views: Vec<TextureView> =
        textures.iter().map(|t| TextureView { handle: t.handle + 10, texture: *t, descriptor: view_descriptor }).collect();
    let swapchain = Swapchain { handle: 7, textures, views };

    let image = swapchain.acquire_next_image(AcquireResult::Acquired { index: 2, suboptimal: true }).unwrap().unwrap();
    assert_eq!(image.swapchain, 7);
    assert_eq!(image.image_index, 2);
    assert_eq!(image.texture.handle, 102);
    assert_eq!(image.view.handle, 112);

    assert!(swapchain.acquire_next_image(AcquireResult::Failed(vk::RESULT_TIMEOUT)).unwrap().is_none());
    let err = swapchain.acquire_next_image(AcquireResult::Failed(vk::RESULT_ERROR_OUT_OF_DATE_KHR)).unwrap_err();
    assert_eq!(err.to_code(), vk::RESULT_ERROR_OUT_OF_DATE_KHR);
}

#[test]
fn recreate_swapchain_without_old() {
    let descriptor = SwapchainDescriptor::default_with_surface(&Surface { handle: 9 });
    let modes = [vk::PRESENT_MODE_FIFO];
    let first = device().create_swapchain(&descriptor, &caps(), &[srgb()], &modes, 0).unwrap();
    let second = device().create_swapchain(&descriptor, &caps(), &[srgb()], &modes, 0).unwrap();
    assert_eq!(first, second);
    assert_eq!(second.old_swapchain, 0);
    assert_eq!(second.present_mode, vk::PRESENT_MODE_FIFO);
}

#[test]
fn keep_surface_alive() {
    // A swapchain waiting for destruction carries its surface, so the surface
    // is released together with the swapchain and never before it.
    let mut deleter = FencedDeleter::new();
    let retired = Resource::Swapchain { swapchain: 7, surface: 9 };
    deleter.delete_when_unused(retired, Serial(2));
    assert!(deleter.tick(Serial(1)).is_empty());
    assert!(!deleter.is_empty());
    assert_eq!(deleter.tick(Serial(2)), vec![retired]);
    assert!(deleter.is_empty());
}
