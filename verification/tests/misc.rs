use vki::render_pass::{render_pass_layout, ColorInfo, DepthStencilInfo, RenderPassCacheQuery};
use vki::resources::{Adapter, Device, ShaderModuleDescriptor};
use vki::types::Extensions;
use vki::error::{Error, ErrorKind, FenceError, SwapchainError};
use vki::fenced_deleter::{FencedDeleter, Resource};
use vki::sampler::SamplerModes;
use vki::serial::Serial;
use vki::surface::{is_supported_format, surface_descriptor_from_window, surface_source, SurfaceSource, WindowHandle};
use vki::swapchain::SurfaceFormat;
use vki::types::{AddressMode, CompareFunction, FilterMode, LoadOp, TextureFormat};
use vki::vk;

fn device() -> Device {
    Device {
        handle: 1,
        adapter: Adapter {
            physical_device: 2,
            name: String::from("gpu"),
            extensions: Extensions { anisotropic_filtering: false },
            device_type: vk::PHYSICAL_DEVICE_TYPE_DISCRETE_GPU,
        },
    }
}

fn words(code: &[u8]) -> Vec<u32> {
    let plan = device().create_shader_module(&ShaderModuleDescriptor { code: code.to_vec() });
    assert_eq!(plan.code_size, code.len());
    plan.code
}

#[test]
fn create_shader_module_words() {
    assert_eq!(words(&[]), vec![0]);
    assert_eq!(words(&[0x03, 0x02, 0x23, 0x07]), vec![0x07230203]);
    assert_eq!(words(&[1, 0, 0, 0, 0xff]), vec![1, 0xff]);
}

#[test]
fn surfaces_pick_a_windowing_system() {
    let d = surface_descriptor_from_window(WindowHandle::Xcb { window: 5, connection: 6 });
    assert_eq!(surface_source(&d).unwrap(), SurfaceSource::Xcb { window: 5, connection: 6 });
    let mut both = surface_descriptor_from_window(WindowHandle::Wayland { surface: 1, display: 2 });
    both.xlib_window = Some(3);
    both.xlib_display = Some(4);
    assert_eq!(surface_source(&both).unwrap(), SurfaceSource::Xlib { window: 3, display: 4 });
    let mut none = d;
    none.xcb_connection = None;
    assert!(matches!(surface_source(&none).unwrap_err().kind, ErrorKind::Message(_)));
    let requested = SurfaceFormat { format: vk::FORMAT_B8G8R8A8_SRGB, color_space: vk::COLOR_SPACE_SRGB_NONLINEAR };
    assert!(is_supported_format(&[requested], requested));
    assert!(!is_supported_format(&[SurfaceFormat { color_space: 7, ..requested }], requested));
}

#[test]
fn errors_convert_both_ways() {
    let e = Error::from_code(vk::RESULT_ERROR_OUT_OF_DATE_KHR);
    let s = SwapchainError::from_error(e);
    assert!(matches!(s, SwapchainError::OutOfDate));
    assert_eq!(s.into_error().to_code(), vk::RESULT_ERROR_OUT_OF_DATE_KHR);
    let f = FenceError::from_error(Error::from_code(vk::RESULT_TIMEOUT));
    assert!(matches!(f, FenceError::Timeout));
    let other = FenceError::from_error(Error::from_message("boom"));
    match other.into_error().kind {
        ErrorKind::Message(m) => assert_eq!(m, "boom"),
        k => panic!("unexpected {:?}", k),
    }
    assert_eq!(Error::from_message("x").to_code(), vk::RESULT_ERROR_VALIDATION_FAILED_EXT);
}

#[test]
fn sampler_compare_enable() {
    let modes = SamplerModes {
        address_mode_u: AddressMode::ClampToEdge,
        address_mode_v: AddressMode::Repeat,
        address_mode_w: AddressMode::MirrorRepeat,
        mag_filter: FilterMode::Linear,
        min_filter: FilterMode::Nearest,
        mipmap_filter: FilterMode::Linear,
        compare_function: CompareFunction::Never,
    };
    let plan = device().create_sampler(&modes);
    assert!(!plan.compare_enable);
    assert_eq!(plan.address_mode_u, vk::SAMPLER_ADDRESS_MODE_CLAMP_TO_EDGE);
    assert_eq!(plan.address_mode_w, vk::SAMPLER_ADDRESS_MODE_MIRRORED_REPEAT);
    assert_eq!(plan.mipmap_mode, vk::SAMPLER_MIPMAP_MODE_LINEAR);
    let plan = device().create_sampler(&SamplerModes { compare_function: CompareFunction::Less, ..modes });
    assert!(plan.compare_enable);
    assert_eq!(plan.compare_op, vk::COMPARE_OP_LESS);
}

#[test]
fn deleter_destroys_in_kind_order_once_complete() {
    let mut deleter = FencedDeleter::new();
    deleter.delete_when_unused(Resource::Pipeline(1), Serial(2));
    deleter.delete_when_unused(Resource::Swapchain { swapchain: 2, surface: 3 }, Serial(3));
    deleter.delete_when_unused(Resource::Buffer { buffer: 4, allocation: 5 }, Serial(2));
    deleter.delete_when_unused(Resource::SurfaceKeepalive(6), Serial(1));
    deleter.delete_when_unused(Resource::Pipeline(7), Serial(4));
    assert!(deleter.tick(Serial(1)).is_empty());
    assert_eq!(deleter.tick(Serial(3)), vec![
        Resource::Swapchain { swapchain: 2, surface: 3 },
        Resource::Buffer { buffer: 4, allocation: 5 },
        Resource::Pipeline(1),
    ]);
    assert!(!deleter.is_empty());
    assert_eq!(deleter.tick(Serial(10)), vec![Resource::Pipeline(7)]);
    // surfaces kept alive are never released by a tick
    assert!(!deleter.is_empty());
    deleter.delete_when_unused(Resource::Swapchain { swapchain: 8, surface: 3 }, Serial(20));
    assert_eq!(deleter.purge_swapchains(), vec![Resource::Swapchain { swapchain: 8, surface: 3 }]);
}

#[test]
fn create_sampler() {
    // The descriptor's defaults; its level of detail clamps are handed to Vulkan as they are.
    let modes = SamplerModes {
        address_mode_u: AddressMode::ClampToEdge,
        address_mode_v: AddressMode::ClampToEdge,
        address_mode_w: AddressMode::ClampToEdge,
        mag_filter: FilterMode::Nearest,
        min_filter: FilterMode::Nearest,
        mipmap_filter: FilterMode::Nearest,
        compare_function: CompareFunction::Never,
    };
    let plan = device().create_sampler(&modes);
    assert_eq!(plan.address_mode_u, vk::SAMPLER_ADDRESS_MODE_CLAMP_TO_EDGE);
    assert_eq!(plan.address_mode_w, vk::SAMPLER_ADDRESS_MODE_CLAMP_TO_EDGE);
    assert_eq!((plan.mag_filter, plan.min_filter), (vk::FILTER_NEAREST, vk::FILTER_NEAREST));
    assert_eq!(plan.mipmap_mode, vk::SAMPLER_MIPMAP_MODE_NEAREST);
    assert!(!plan.compare_enable);
}

#[test]
fn render_pass_layout_orders_color_depth_then_resolve() {
    let mut query = RenderPassCacheQuery::new();
    let with_resolve = ColorInfo { format: TextureFormat::B8G8R8A8Unorm, load_op: LoadOp::Clear, has_resolve_target: true };
    let plain = ColorInfo { format: TextureFormat::R8G8B8A8Unorm, load_op: LoadOp::Load, has_resolve_target: false };
    query.add_color(with_resolve);
    query.add_color(plain);
    query.set_depth_stencil(DepthStencilInfo {
        format: TextureFormat::D32Float,
        depth_load_op: LoadOp::Clear,
        stencil_load_op: LoadOp::Load,
    });
    query.set_sample_count(4);
    assert_eq!(query.color_targets(), &[with_resolve, plain]);
    let copy = query.clone();
    assert!(copy.eq(&query));

    let layout = render_pass_layout(&query).unwrap();
    let colors = layout.color_references();
    assert_eq!((colors[0].attachment, colors[1].attachment), (0, 1));
    assert_eq!(colors[0].layout, vk::IMAGE_LAYOUT_COLOR_ATTACHMENT_OPTIMAL);
    assert_eq!(layout.depth_stencil_attachment.unwrap().attachment, 2);
    let resolves = layout.resolve_references();
    assert_eq!(resolves[0].attachment, 3);
    assert_eq!(resolves[1].attachment, vk::ATTACHMENT_UNUSED);
    let attachments = layout.attachment_descriptions();
    assert_eq!(attachments.len(), 4);
    assert_eq!(attachments[0].samples, 4);
    assert_eq!(attachments[2].format, vk::FORMAT_D32_SFLOAT);
    assert_eq!(attachments[3].samples, 1);

    query.set_sample_count(3);
    assert_eq!(render_pass_layout(&query).unwrap_err().to_code(), vk::RESULT_ERROR_VALIDATION_FAILED_EXT);
}
