use vstd::prelude::*;

use crate::error::{Error, ErrorKind};
use crate::flags::{TextureUsageFlags, TEXTURE_USAGE_PRESENT};
use crate::resources::{Swapchain, SwapchainDescriptor, SwapchainImage};
use crate::resources::Device;
use crate::texture::{image_format, image_usage, is_known_surface_format, spec_image_format, spec_image_usage, texture_format};
use crate::types::{Extent3D, TextureDescriptor, TextureDimension, TextureFormat};
use crate::vk;

verus! {

/// A two-dimensional size in pixels.
#[derive(Clone, Copy, Debug, PartialEq, Eq, Structural, Hash, Default)]
pub struct Extent2D {
    pub width: u32,
    pub height: u32,
}

/// What a surface supports, as the physical device reports it.
#[derive(Clone, Copy, Debug, PartialEq, Eq, Structural, Hash)]
pub struct SurfaceCapabilities {
    pub min_image_count: u32,
    /// Zero when there is no limit.
    pub max_image_count: u32,
    /// Zero by zero when the swapchain decides the size.
    pub current_extent: Extent2D,
    pub min_image_extent: Extent2D,
    pub max_image_extent: Extent2D,
    pub supported_transforms: u32,
    pub supported_usage_flags: u32,
}

/// A pixel format with a color space.
#[derive(Clone, Copy, Debug, PartialEq, Eq, Structural, Hash)]
pub struct SurfaceFormat {
    pub format: i32,
    pub color_space: i32,
}

/// Why a surface cannot take a swapchain.
#[derive(Clone, Debug)]
pub enum SurfaceError {
    UnsupportedFormat(SurfaceFormat),
    UnsupportedImageUsageFlags(u32),
    UnsupportedImageTransformFlags(u32),
    Other(Error),
}

/// One image more than the minimum, unless that is above a given maximum.
pub open spec fn spec_surface_image_count(caps: SurfaceCapabilities) -> u32 {
    let image_count = (caps.min_image_count + 1) as u32;
    if caps.max_image_count != 0 && image_count > caps.max_image_count {
        caps.max_image_count
    } else {
        image_count
    }
}

pub fn surface_image_count(surface_caps: &SurfaceCapabilities) -> (r: u32)
    requires
        surface_caps.min_image_count < u32::MAX,
    ensures
        r == spec_surface_image_count(*surface_caps),
{
    let image_count = surface_caps.min_image_count + 1;
    if surface_caps.max_image_count == 0 {
        image_count
    } else if image_count > surface_caps.max_image_count {
        surface_caps.max_image_count
    } else {
        image_count
    }
}

/// `value` raised to `min`, then lowered to `max`.
pub open spec fn clamp_dimension(value: u32, min: u32, max: u32) -> u32 {
    let raised = if min > value { min } else { value };
    if max < raised { max } else { raised }
}

/// The surface's current extent, or, when the surface leaves the size to the
/// swapchain, the requested extent held between the surface's limits.
pub open spec fn spec_surface_image_extent(caps: SurfaceCapabilities, requested: Extent2D) -> Extent2D {
    if caps.current_extent.width == 0 && caps.current_extent.height == 0 {
        Extent2D {
            width: clamp_dimension(
                requested.width,
                caps.min_image_extent.width,
                caps.max_image_extent.width,
            ),
            height: clamp_dimension(
                requested.height,
                caps.min_image_extent.height,
                caps.max_image_extent.height,
            ),
        }
    } else {
        caps.current_extent
    }
}

pub fn surface_image_extent(surface_caps: &SurfaceCapabilities, requested_dimensions: Extent2D) -> (r: Extent2D)
    ensures
        r == spec_surface_image_extent(*surface_caps, requested_dimensions),
{
    if surface_caps.current_extent.width == 0 && surface_caps.current_extent.height == 0 {
        let mut width = requested_dimensions.width;
        let mut height = requested_dimensions.height;
        if surface_caps.min_image_extent.width > width {
            width = surface_caps.min_image_extent.width;
        }
        if surface_caps.min_image_extent.height > height {
            height = surface_caps.min_image_extent.height;
        }
        if surface_caps.max_image_extent.width < width {
            width = surface_caps.max_image_extent.width;
        }
        if surface_caps.max_image_extent.height < height {
            height = surface_caps.max_image_extent.height;
        }
        Extent2D { width, height }
    } else {
        surface_caps.current_extent
    }
}

/// The surface supports every usage asked for.
pub fn surface_image_usage_check(surface_caps: &SurfaceCapabilities, usage_flags: u32) -> (r: Result<(), SurfaceError>)
    ensures
        r is Ok <==> surface_caps.supported_usage_flags & usage_flags == usage_flags,
        r matches Err(e) ==> e == SurfaceError::UnsupportedImageUsageFlags(usage_flags),
{
    if surface_caps.supported_usage_flags & usage_flags == usage_flags {
        Ok(())
    } else {
        Err(SurfaceError::UnsupportedImageUsageFlags(usage_flags))
    }
}

/// The surface supports every transform asked for.
pub fn surface_image_transform_check(surface_caps: &SurfaceCapabilities, transform_flags: u32) -> (r: Result<(), SurfaceError>)
    ensures
        r is Ok <==> surface_caps.supported_transforms & transform_flags == transform_flags,
        r matches Err(e) ==> e == SurfaceError::UnsupportedImageTransformFlags(transform_flags),
{
    if surface_caps.supported_transforms & transform_flags == transform_flags {
        Ok(())
    } else {
        Err(SurfaceError::UnsupportedImageTransformFlags(transform_flags))
    }
}

/// A supported format serves the request when it has the requested color
/// space and either the requested format or no preferred format at all.
pub open spec fn format_serves(supported: SurfaceFormat, requested: SurfaceFormat) -> bool {
    (supported.format == requested.format || supported.format == vk::FORMAT_UNDEFINED)
        && requested.color_space == supported.color_space
}

/// Some format the surface supports serves the request.
pub fn surface_format_check(supported_formats: &[SurfaceFormat], requested_format: SurfaceFormat) -> (r: Result<(), SurfaceError>)
    ensures
        r is Ok <==> exists|i: int|
            0 <= i < supported_formats@.len() && format_serves(
                #[trigger] supported_formats@[i],
                requested_format,
            ),
        r matches Err(e) ==> e == SurfaceError::UnsupportedFormat(requested_format),
{
    let mut i: usize = 0;
    while i < supported_formats.len()
        invariant
            i <= supported_formats@.len(),
            forall|j: int| 0 <= j < i ==> !format_serves(#[trigger] supported_formats@[j], requested_format),
        decreases supported_formats@.len() - i,
    {
        let format = supported_formats[i];
        if (format.format == requested_format.format || format.format == vk::FORMAT_UNDEFINED)
            && requested_format.color_space == format.color_space {
            return Ok(());
        }
        i = i + 1;
    }
    Err(SurfaceError::UnsupportedFormat(requested_format))
}

/// Mailbox when the surface offers it, otherwise FIFO, which every surface offers.
pub open spec fn spec_surface_present_mode(modes: Seq<i32>) -> i32 {
    if modes.contains(vk::PRESENT_MODE_MAILBOX) {
        vk::PRESENT_MODE_MAILBOX
    } else {
        vk::PRESENT_MODE_FIFO
    }
}

pub fn surface_present_mode(present_modes: &[i32]) -> (r: i32)
    ensures
        r == spec_surface_present_mode(present_modes@),
{
    let mut i: usize = 0;
    while i < present_modes.len()
        invariant
            i <= present_modes@.len(),
            forall|j: int| 0 <= j < i ==> present_modes@[j] != vk::PRESENT_MODE_MAILBOX,
        decreases present_modes@.len() - i,
    {
        if present_modes[i] == vk::PRESENT_MODE_MAILBOX {
            assert(present_modes@[i as int] == vk::PRESENT_MODE_MAILBOX);
            return vk::PRESENT_MODE_MAILBOX;
        }
        i = i + 1;
    }
    vk::PRESENT_MODE_FIFO
}

/// How a swapchain is created: the Vulkan values of its create info. Images
/// have one array layer, are owned by one queue family, are opaque and
/// clipped.
#[derive(Clone, Copy, Debug, PartialEq, Eq, Structural, Hash)]
pub struct SwapchainPlan {
    pub surface: u64,
    pub min_image_count: u32,
    pub image_format: SurfaceFormat,
    pub image_extent: Extent2D,
    pub image_usage: u32,
    pub pre_transform: u32,
    pub present_mode: i32,
    pub old_swapchain: u64,
}

/// The format the swapchain's images are created with.
pub open spec fn requested_surface_format(descriptor: SwapchainDescriptor) -> SurfaceFormat {
    SurfaceFormat {
        format: spec_image_format(descriptor.format),
        color_space: vk::COLOR_SPACE_SRGB_NONLINEAR,
    }
}

/// The surface accepts the swapchain: it offers the format, the usage and the
/// identity transform.
pub open spec fn swapchain_accepted(
    descriptor: SwapchainDescriptor,
    caps: SurfaceCapabilities,
    formats: Seq<SurfaceFormat>,
) -> bool {
    &&& exists|i: int|
        0 <= i < formats.len() && format_serves(#[trigger] formats[i], requested_surface_format(descriptor))
    &&& caps.supported_usage_flags & spec_image_usage(descriptor.usage, descriptor.format)
        == spec_image_usage(descriptor.usage, descriptor.format)
    &&& caps.supported_transforms & vk::SURFACE_TRANSFORM_IDENTITY == vk::SURFACE_TRANSFORM_IDENTITY
}

impl Device {
    /// Works out how to create a swapchain for the descriptor on a surface with
    /// the given capabilities, formats and present modes, replacing
    /// `old_swapchain` (zero for none). The format is checked first, then the
    /// usage, then the transform; the first that fails is the error.
    pub fn create_swapchain(
        &self,
        descriptor: &SwapchainDescriptor,
        surface_caps: &SurfaceCapabilities,
        supported_formats: &[SurfaceFormat],
        present_modes: &[i32],
        old_swapchain: u64,
    ) -> (r: Result<SwapchainPlan, SurfaceError>)
        requires
            surface_caps.min_image_count < u32::MAX,
        ensures
            r is Ok <==> swapchain_accepted(*descriptor, *surface_caps, supported_formats@),
            r matches Ok(plan) ==> plan == (SwapchainPlan {
                surface: descriptor.surface.handle,
                min_image_count: spec_surface_image_count(*surface_caps),
                image_format: requested_surface_format(*descriptor),
                image_extent: spec_surface_image_extent(*surface_caps, surface_caps.current_extent),
                image_usage: spec_image_usage(descriptor.usage, descriptor.format),
                pre_transform: vk::SURFACE_TRANSFORM_IDENTITY,
                present_mode: spec_surface_present_mode(present_modes@),
                old_swapchain,
            }),
            r matches Err(e) ==> {
                if !(exists|i: int|
                    0 <= i < supported_formats@.len() && format_serves(
                        #[trigger] supported_formats@[i],
                        requested_surface_format(*descriptor),
                    )) {
                    e == SurfaceError::UnsupportedFormat(requested_surface_format(*descriptor))
                } else if surface_caps.supported_usage_flags & spec_image_usage(descriptor.usage, descriptor.format)
                    != spec_image_usage(descriptor.usage, descriptor.format) {
                    e == SurfaceError::UnsupportedImageUsageFlags(
                        spec_image_usage(descriptor.usage, descriptor.format),
                    )
                } else {
                    e == SurfaceError::UnsupportedImageTransformFlags(vk::SURFACE_TRANSFORM_IDENTITY)
                }
            },
    {
        let surface_format = SurfaceFormat {
            format: image_format(descriptor.format),
            color_space: vk::COLOR_SPACE_SRGB_NONLINEAR,
        };
        let surface_image_transform = vk::SURFACE_TRANSFORM_IDENTITY;
        let surface_image_usage = image_usage(descriptor.usage, descriptor.format);
        let surface_image_count = surface_image_count(surface_caps);
        let surface_image_extent = surface_image_extent(surface_caps, surface_caps.current_extent);
        let surface_present_mode = surface_present_mode(present_modes);
        match surface_format_check(supported_formats, surface_format) {
            Ok(()) => {},
            Err(e) => {
                return Err(e);
            },
        }
        match surface_image_usage_check(surface_caps, surface_image_usage) {
            Ok(()) => {},
            Err(e) => {
                return Err(e);
            },
        }
        match surface_image_transform_check(surface_caps, surface_image_transform) {
            Ok(()) => {},
            Err(e) => {
                return Err(e);
            },
        }
        Ok(SwapchainPlan {
            surface: descriptor.surface.handle,
            min_image_count: surface_image_count,
            image_format: surface_format,
            image_extent: surface_image_extent,
            image_usage: surface_image_usage,
            pre_transform: surface_image_transform,
            present_mode: surface_present_mode,
            old_swapchain,
        })
    }
}

/// The descriptor of each swapchain image: one two-dimensional layer and mip
/// level of the swapchain's extent, one sample, used for presentation.
pub open spec fn spec_swapchain_texture_descriptor(extent: Extent2D, format: TextureFormat) -> TextureDescriptor {
    TextureDescriptor {
        size: Extent3D { width: extent.width, height: extent.height, depth: 1 },
        array_layer_count: 1,
        mip_level_count: 1,
        sample_count: 1,
        dimension: TextureDimension::D2,
        format,
        usage: TextureUsageFlags { bits: TEXTURE_USAGE_PRESENT },
    }
}

pub fn swapchain_texture_descriptor(extent: Extent2D, format: TextureFormat) -> (r: TextureDescriptor)
    ensures
        r == spec_swapchain_texture_descriptor(extent, format),
{
    TextureDescriptor {
        size: Extent3D { width: extent.width, height: extent.height, depth: 1 },
        array_layer_count: 1,
        mip_level_count: 1,
        sample_count: 1,
        dimension: TextureDimension::D2,
        format,
        usage: TextureUsageFlags { bits: TEXTURE_USAGE_PRESENT },
    }
}

/// What acquiring the next swapchain image reported.
#[derive(Clone, Copy, Debug, PartialEq, Eq, Structural, Hash)]
pub enum AcquireResult {
    /// An image index, and whether the swapchain no longer matches the surface exactly.
    Acquired { index: u32, suboptimal: bool },
    /// A Vulkan result code other than success.
    Failed(i32),
}

/// What to do after an acquire attempt.
#[derive(Clone, Copy, Debug, PartialEq, Eq, Structural, Hash)]
pub enum AcquireStep {
    /// The image is ready once the semaphore is signaled: wait on the
    /// semaphore at the next submission and use the image.
    UseImage(u32),
    /// The attempt timed out: try again.
    Retry,
    /// The attempt failed: destroy the semaphore once the pending work has
    /// completed, and report the code.
    Fail(i32),
}

pub open spec fn spec_acquire_step(result: AcquireResult) -> AcquireStep {
    match result {
        AcquireResult::Acquired { index, .. } => AcquireStep::UseImage(index),
        AcquireResult::Failed(code) => if code == vk::RESULT_TIMEOUT {
            AcquireStep::Retry
        } else {
            AcquireStep::Fail(code)
        },
    }
}

pub fn acquire_step(result: AcquireResult) -> (r: AcquireStep)
    ensures
        r == spec_acquire_step(result),
{
    match result {
        AcquireResult::Acquired { index, suboptimal: _ } => AcquireStep::UseImage(index),
        AcquireResult::Failed(code) => {
            if code == vk::RESULT_TIMEOUT {
                AcquireStep::Retry
            } else {
                AcquireStep::Fail(code)
            }
        },
    }
}

impl Swapchain {
    /// Where an attempt to acquire the next image leads, given what the
    /// attempt reported: the acquired image with its texture and view, `None`
    /// when the attempt timed out and is to be made again, or the error of a
    /// failed attempt.
    pub fn acquire_next_image(&self, result: AcquireResult) -> (r: Result<Option<SwapchainImage>, Error>)
        requires
            self.views@.len() == self.textures@.len(),
            result matches AcquireResult::Acquired { index, .. } ==> index < self.textures@.len(),
        ensures
            match spec_acquire_step(result) {
                AcquireStep::UseImage(i) => r == Ok::<Option<SwapchainImage>, Error>(
                    Some(
                        SwapchainImage {
                            swapchain: self.handle,
                            image_index: i,
                            texture: self.textures@[i as int],
                            view: self.views@[i as int],
                        },
                    ),
                ),
                AcquireStep::Retry => r == Ok::<Option<SwapchainImage>, Error>(None),
                AcquireStep::Fail(code) => r matches Err(e) && e.kind == ErrorKind::Code(code),
            },
    {
        match acquire_step(result) {
            AcquireStep::UseImage(index) => {
                let i = index as usize;
                Ok(
                    Some(
                        SwapchainImage {
                            swapchain: self.handle,
                            image_index: index,
                            texture: self.textures[i],
                            view: self.views[i],
                        },
                    ),
                )
            },
            AcquireStep::Retry => Ok(None),
            AcquireStep::Fail(code) => Err(Error::from_code(code)),
        }
    }
}

/// The texture formats of the supported surface formats in the sRGB
/// nonlinear color space, in the order reported.
pub open spec fn supported_swapchain_formats(formats: Seq<SurfaceFormat>) -> Seq<TextureFormat>
    decreases formats.len(),
{
    if formats.len() == 0 {
        Seq::empty()
    } else {
        let rest = supported_swapchain_formats(formats.drop_last());
        if formats.last().color_space == vk::COLOR_SPACE_SRGB_NONLINEAR {
            rest.push(texture_format_of(formats.last().format))
        } else {
            rest
        }
    }
}

/// The texture format whose Vulkan format is `format`, for the formats that
/// have one.
pub open spec fn texture_format_of(format: i32) -> TextureFormat {
    if format == vk::FORMAT_B8G8R8A8_SRGB {
        TextureFormat::B8G8R8A8UnormSRGB
    } else {
        TextureFormat::B8G8R8A8Unorm
    }
}

impl Device {
    /// The texture formats a swapchain on a surface can use, from the
    /// surface formats the surface supports: those in the sRGB nonlinear
    /// color space. Each of them must have a texture format.
    pub fn get_supported_swapchain_formats(&self, surface_formats: &[SurfaceFormat]) -> (r: Vec<TextureFormat>)
        requires
            forall|i: int|
                0 <= i < surface_formats@.len() && (#[trigger] surface_formats@[i]).color_space
                    == vk::COLOR_SPACE_SRGB_NONLINEAR ==> is_known_surface_format(surface_formats@[i].format),
        ensures
            r@ == supported_swapchain_formats(surface_formats@),
    {
        let mut r: Vec<TextureFormat> = Vec::new();
        let mut i: usize = 0;
        while i < surface_formats.len()
            invariant
                i <= surface_formats@.len(),
                forall|j: int|
                    0 <= j < surface_formats@.len() && (#[trigger] surface_formats@[j]).color_space
                        == vk::COLOR_SPACE_SRGB_NONLINEAR ==> is_known_surface_format(surface_formats@[j].format),
                r@ == supported_swapchain_formats(surface_formats@.take(i as int)),
            decreases surface_formats@.len() - i,
        {
            let f = surface_formats[i];
            assert(surface_formats@.take(i + 1).drop_last() == surface_formats@.take(i as int));
            if f.color_space == vk::COLOR_SPACE_SRGB_NONLINEAR {
                let t = texture_format(f.format);
                assert(t == texture_format_of(f.format));
                r.push(t);
            }
            i = i + 1;
        }
        assert(surface_formats@.take(i as int) == surface_formats@);
        r
    }
}

/// The swapchain asks for one image more than the minimum, but never more
/// than a given maximum: the count is at least the minimum when the maximum
/// allows it, and at most the maximum when there is one.
pub proof fn lemma_image_count_within_limits(caps: SurfaceCapabilities)
    requires
        caps.min_image_count < u32::MAX,
    ensures
        caps.max_image_count != 0 ==> spec_surface_image_count(caps) <= caps.max_image_count,
        (caps.max_image_count == 0 || caps.min_image_count <= caps.max_image_count)
            ==> spec_surface_image_count(caps) >= caps.min_image_count,
        caps.max_image_count == 0 || caps.min_image_count < caps.max_image_count
            ==> spec_surface_image_count(caps) == caps.min_image_count + 1,
{
}

/// When the surface leaves the size to the swapchain, the size chosen lies
/// within the surface's limits whenever those limits are consistent.
pub proof fn lemma_extent_within_limits(caps: SurfaceCapabilities, requested: Extent2D)
    requires
        caps.current_extent.width == 0 && caps.current_extent.height == 0,
        caps.min_image_extent.width <= caps.max_image_extent.width,
        caps.min_image_extent.height <= caps.max_image_extent.height,
    ensures
        caps.min_image_extent.width <= spec_surface_image_extent(caps, requested).width
            <= caps.max_image_extent.width,
        caps.min_image_extent.height <= spec_surface_image_extent(caps, requested).height
            <= caps.max_image_extent.height,
{
}

} // verus!
