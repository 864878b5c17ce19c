use vstd::prelude::*;

use crate::flags::{
    TextureAspectFlags, TextureUsageFlags, TEXTURE_USAGE_NONE, TEXTURE_USAGE_OUTPUT_ATTACHMENT,
    TEXTURE_USAGE_PRESENT, TEXTURE_USAGE_SAMPLED, TEXTURE_USAGE_STORAGE, TEXTURE_USAGE_TRANSFER_DST,
    TEXTURE_USAGE_TRANSFER_SRC,
};
use crate::types::{
    Extent3D, TextureDescriptor, TextureDimension, TextureFormat, TextureViewDescriptor,
    TextureViewDimension,
};
use crate::buffer::MemoryUsage;
use crate::error::{Error, ErrorKind};
use crate::render_pass::{sample_count, valid_sample_count};
use crate::resources::{Device, Texture};
use crate::vk;
use smallvec::SmallVec;

verus! {

/// Usages that only read a texture.
pub fn read_only_texture_usage() -> (r: TextureUsageFlags)
    ensures
        r.bits == TEXTURE_USAGE_TRANSFER_SRC | TEXTURE_USAGE_SAMPLED | TEXTURE_USAGE_PRESENT,
{
    TextureUsageFlags { bits: TEXTURE_USAGE_TRANSFER_SRC | TEXTURE_USAGE_SAMPLED | TEXTURE_USAGE_PRESENT }
}

/// Usages that may write a texture.
pub fn writable_texture_usages() -> (r: TextureUsageFlags)
    ensures
        r.bits == TEXTURE_USAGE_TRANSFER_DST | TEXTURE_USAGE_STORAGE | TEXTURE_USAGE_OUTPUT_ATTACHMENT,
{
    TextureUsageFlags {
        bits: TEXTURE_USAGE_TRANSFER_DST | TEXTURE_USAGE_STORAGE | TEXTURE_USAGE_OUTPUT_ATTACHMENT,
    }
}

pub open spec fn spec_is_depth(format: TextureFormat) -> bool {
    format == TextureFormat::D32Float || format == TextureFormat::D32FloatS8Uint
}

pub open spec fn spec_is_stencil(format: TextureFormat) -> bool {
    format == TextureFormat::D32FloatS8Uint
}

pub open spec fn spec_is_depth_or_stencil(format: TextureFormat) -> bool {
    spec_is_depth(format) || spec_is_stencil(format)
}

pub fn is_depth(format: TextureFormat) -> (r: bool)
    ensures
        r == spec_is_depth(format),
{
    match format {
        TextureFormat::D32Float => true,
        TextureFormat::D32FloatS8Uint => true,
        _ => false,
    }
}

pub fn is_stencil(format: TextureFormat) -> (r: bool)
    ensures
        r == spec_is_stencil(format),
{
    match format {
        TextureFormat::D32FloatS8Uint => true,
        _ => false,
    }
}

pub fn is_depth_or_stencil(format: TextureFormat) -> (r: bool)
    ensures
        r == spec_is_depth_or_stencil(format),
{
    is_depth(format) || is_stencil(format)
}

pub open spec fn spec_image_type(dimension: TextureDimension) -> i32 {
    match dimension {
        TextureDimension::D1 => vk::IMAGE_TYPE_1D,
        TextureDimension::D2 => vk::IMAGE_TYPE_2D,
        TextureDimension::D3 => vk::IMAGE_TYPE_3D,
    }
}

/// Each `TextureDimension` becomes the Vulkan value named for it.
pub proof fn lemma_image_type_names()
    ensures
        spec_image_type(TextureDimension::D1) == vk::IMAGE_TYPE_1D,
        spec_image_type(TextureDimension::D2) == vk::IMAGE_TYPE_2D,
        spec_image_type(TextureDimension::D3) == vk::IMAGE_TYPE_3D,
{
}

/// Distinct `TextureDimension` values never become the same Vulkan value.
pub proof fn lemma_image_type_injective(a: TextureDimension, b: TextureDimension)
    ensures
        spec_image_type(a) == spec_image_type(b) ==> a == b,
{
}

pub open spec fn spec_image_view_type(dimension: TextureViewDimension) -> i32 {
    match dimension {
        TextureViewDimension::D1 => vk::IMAGE_VIEW_TYPE_1D,
        TextureViewDimension::D2 => vk::IMAGE_VIEW_TYPE_2D,
        TextureViewDimension::D3 => vk::IMAGE_VIEW_TYPE_3D,
        TextureViewDimension::Cube => vk::IMAGE_VIEW_TYPE_CUBE,
    }
}

/// Each `TextureViewDimension` becomes the Vulkan value named for it.
pub proof fn lemma_image_view_type_names()
    ensures
        spec_image_view_type(TextureViewDimension::D1) == vk::IMAGE_VIEW_TYPE_1D,
        spec_image_view_type(TextureViewDimension::D2) == vk::IMAGE_VIEW_TYPE_2D,
        spec_image_view_type(TextureViewDimension::D3) == vk::IMAGE_VIEW_TYPE_3D,
        spec_image_view_type(TextureViewDimension::Cube) == vk::IMAGE_VIEW_TYPE_CUBE,
{
}

/// Distinct `TextureViewDimension` values never become the same Vulkan value.
pub proof fn lemma_image_view_type_injective(a: TextureViewDimension, b: TextureViewDimension)
    ensures
        spec_image_view_type(a) == spec_image_view_type(b) ==> a == b,
{
}

/// The Vulkan image type of a texture dimension.
pub fn image_type(dimension: TextureDimension) -> (r: i32)
    ensures
        r == spec_image_type(dimension),
{
    match dimension {
        TextureDimension::D1 => vk::IMAGE_TYPE_1D,
        TextureDimension::D2 => vk::IMAGE_TYPE_2D,
        TextureDimension::D3 => vk::IMAGE_TYPE_3D,
    }
}

/// The Vulkan image view type of a view descriptor.
pub fn image_view_type(descriptor: &TextureViewDescriptor) -> (r: i32)
    ensures
        r == spec_image_view_type(descriptor.dimension),
{
    match descriptor.dimension {
        TextureViewDimension::D1 => vk::IMAGE_VIEW_TYPE_1D,
        TextureViewDimension::D2 => vk::IMAGE_VIEW_TYPE_2D,
        TextureViewDimension::D3 => vk::IMAGE_VIEW_TYPE_3D,
        TextureViewDimension::Cube => vk::IMAGE_VIEW_TYPE_CUBE,
    }
}

/// `bit` if `flag` holds, else no bit.
pub open spec fn bit_if(flag: bool, bit: u32) -> u32 {
    if flag {
        bit
    } else {
        0
    }
}

/// Vulkan image usage bits for a texture usage and format.
pub open spec fn spec_image_usage(usage: TextureUsageFlags, format: TextureFormat) -> u32 {
    bit_if(usage.bits & TEXTURE_USAGE_TRANSFER_SRC != 0, vk::IMAGE_USAGE_TRANSFER_SRC)
        | bit_if(usage.bits & TEXTURE_USAGE_TRANSFER_DST != 0, vk::IMAGE_USAGE_TRANSFER_DST)
        | bit_if(usage.bits & TEXTURE_USAGE_SAMPLED != 0, vk::IMAGE_USAGE_SAMPLED)
        | bit_if(usage.bits & TEXTURE_USAGE_STORAGE != 0, vk::IMAGE_USAGE_STORAGE)
        | bit_if(
        usage.bits & TEXTURE_USAGE_OUTPUT_ATTACHMENT != 0,
        if spec_is_depth_or_stencil(format) {
            vk::IMAGE_USAGE_DEPTH_STENCIL_ATTACHMENT
        } else {
            vk::IMAGE_USAGE_COLOR_ATTACHMENT
        },
    )
}

/// Each texture usage asks Vulkan for the image usage of the same name, and
/// only when the texture has it: copying from and to it, sampling it and using
/// it as storage; rendering to it asks for the depth-stencil attachment usage
/// when its format has depth or stencil, else for the color attachment usage.
/// Presenting asks for nothing, and no other bit is ever set.
pub proof fn lemma_image_usage_bits(usage: TextureUsageFlags, format: TextureFormat)
    ensures
        spec_image_usage(usage, format) & vk::IMAGE_USAGE_TRANSFER_SRC != 0 <==> usage.bits & TEXTURE_USAGE_TRANSFER_SRC
            != 0,
        spec_image_usage(usage, format) & vk::IMAGE_USAGE_TRANSFER_DST != 0 <==> usage.bits & TEXTURE_USAGE_TRANSFER_DST
            != 0,
        spec_image_usage(usage, format) & vk::IMAGE_USAGE_SAMPLED != 0 <==> usage.bits & TEXTURE_USAGE_SAMPLED != 0,
        spec_image_usage(usage, format) & vk::IMAGE_USAGE_STORAGE != 0 <==> usage.bits & TEXTURE_USAGE_STORAGE != 0,
        spec_image_usage(usage, format) & vk::IMAGE_USAGE_COLOR_ATTACHMENT != 0 <==> (usage.bits
            & TEXTURE_USAGE_OUTPUT_ATTACHMENT != 0 && !spec_is_depth_or_stencil(format)),
        spec_image_usage(usage, format) & vk::IMAGE_USAGE_DEPTH_STENCIL_ATTACHMENT != 0 <==> (usage.bits
            & TEXTURE_USAGE_OUTPUT_ATTACHMENT != 0 && spec_is_depth_or_stencil(format)),
        spec_image_usage(usage, format) & !(vk::IMAGE_USAGE_TRANSFER_SRC | vk::IMAGE_USAGE_TRANSFER_DST
            | vk::IMAGE_USAGE_SAMPLED | vk::IMAGE_USAGE_STORAGE | vk::IMAGE_USAGE_COLOR_ATTACHMENT
            | vk::IMAGE_USAGE_DEPTH_STENCIL_ATTACHMENT) == 0,
{
    let u = usage.bits;
    let d = spec_is_depth_or_stencil(format);
    let a: u32 = if d { 0x20u32 } else { 0x10u32 };
    let r = spec_image_usage(usage, format);
    assert(0x1u32 | 0x2u32 | 0x4u32 | 0x8u32 | 0x10u32 | 0x20u32 == 0x3fu32) by (bit_vector);
    assert(r == ((if u & 1u32 != 0 { 0x1u32 } else { 0u32 }) | (if u & 2u32 != 0 { 0x2u32 } else { 0u32 }) | (if u & 4u32 != 0 { 0x4u32 } else { 0u32 }) | (if u & 8u32 != 0 { 0x8u32 } else { 0u32 }) | (if u & 16u32 != 0 { a } else { 0u32 })));
    assert({
        &&& (r & 0x1u32 != 0 <==> u & 1u32 != 0)
        &&& (r & 0x2u32 != 0 <==> u & 2u32 != 0)
        &&& (r & 0x4u32 != 0 <==> u & 4u32 != 0)
        &&& (r & 0x8u32 != 0 <==> u & 8u32 != 0)
        &&& (r & 0x10u32 != 0 <==> (u & 16u32 != 0 && !d))
        &&& (r & 0x20u32 != 0 <==> (u & 16u32 != 0 && d))
        &&& r & !0x3fu32 == 0
    }) by (bit_vector)
        requires
            r == ((if u & 1u32 != 0 { 0x1u32 } else { 0u32 }) | (if u & 2u32 != 0 { 0x2u32 } else { 0u32 }) | (if u & 4u32 != 0 { 0x4u32 } else { 0u32 }) | (if u & 8u32 != 0 { 0x8u32 } else { 0u32 }) | (if u & 16u32 != 0 { a } else { 0u32 })),
            d ==> a == 0x20u32,
            !d ==> a == 0x10u32,
    ;
}

pub fn image_usage(usage: TextureUsageFlags, format: TextureFormat) -> (r: u32)
    ensures
        r == spec_image_usage(usage, format),
{
    let attach: u32 = if is_depth_or_stencil(format) {
        vk::IMAGE_USAGE_DEPTH_STENCIL_ATTACHMENT
    } else {
        vk::IMAGE_USAGE_COLOR_ATTACHMENT
    };
    pick(usage.bits & TEXTURE_USAGE_TRANSFER_SRC != 0, vk::IMAGE_USAGE_TRANSFER_SRC)
        | pick(usage.bits & TEXTURE_USAGE_TRANSFER_DST != 0, vk::IMAGE_USAGE_TRANSFER_DST)
        | pick(usage.bits & TEXTURE_USAGE_SAMPLED != 0, vk::IMAGE_USAGE_SAMPLED)
        | pick(usage.bits & TEXTURE_USAGE_STORAGE != 0, vk::IMAGE_USAGE_STORAGE)
        | pick(usage.bits & TEXTURE_USAGE_OUTPUT_ATTACHMENT != 0, attach)
}

/// `bit` if `flag` holds, else no bit.
pub fn pick(flag: bool, bit: u32) -> (r: u32)
    ensures
        r == bit_if(flag, bit),
{
    if flag {
        bit
    } else {
        0
    }
}

} // verus!

verus! {

pub open spec fn spec_image_format(format: TextureFormat) -> i32 {
    match format {
        TextureFormat::R8Unorm => vk::FORMAT_R8_UNORM,
        TextureFormat::R8UnormSRGB => vk::FORMAT_R8_SRGB,
        TextureFormat::R8Snorm => vk::FORMAT_R8_SNORM,
        TextureFormat::R8Uint => vk::FORMAT_R8_UINT,
        TextureFormat::R8Sint => vk::FORMAT_R8_SINT,
        TextureFormat::R8G8Unorm => vk::FORMAT_R8G8_UNORM,
        TextureFormat::R8G8Uint => vk::FORMAT_R8G8_UINT,
        TextureFormat::R8G8B8A8Unorm => vk::FORMAT_R8G8B8A8_UNORM,
        TextureFormat::R8G8B8A8Uint => vk::FORMAT_R8G8B8A8_UINT,
        TextureFormat::B8G8R8A8Unorm => vk::FORMAT_B8G8R8A8_UNORM,
        TextureFormat::B8G8R8A8UnormSRGB => vk::FORMAT_B8G8R8A8_SRGB,
        TextureFormat::D32Float => vk::FORMAT_D32_SFLOAT,
        TextureFormat::D32FloatS8Uint => vk::FORMAT_D32_SFLOAT_S8_UINT,
    }
}

/// The Vulkan format of a texture format.
pub fn image_format(format: TextureFormat) -> (r: i32)
    ensures
        r == spec_image_format(format),
{
    match format {
        TextureFormat::R8Unorm => vk::FORMAT_R8_UNORM,
        TextureFormat::R8UnormSRGB => vk::FORMAT_R8_SRGB,
        TextureFormat::R8Snorm => vk::FORMAT_R8_SNORM,
        TextureFormat::R8Uint => vk::FORMAT_R8_UINT,
        TextureFormat::R8Sint => vk::FORMAT_R8_SINT,
        TextureFormat::R8G8Unorm => vk::FORMAT_R8G8_UNORM,
        TextureFormat::R8G8Uint => vk::FORMAT_R8G8_UINT,
        TextureFormat::R8G8B8A8Unorm => vk::FORMAT_R8G8B8A8_UNORM,
        TextureFormat::R8G8B8A8Uint => vk::FORMAT_R8G8B8A8_UINT,
        TextureFormat::B8G8R8A8Unorm => vk::FORMAT_B8G8R8A8_UNORM,
        TextureFormat::B8G8R8A8UnormSRGB => vk::FORMAT_B8G8R8A8_SRGB,
        TextureFormat::D32Float => vk::FORMAT_D32_SFLOAT,
        TextureFormat::D32FloatS8Uint => vk::FORMAT_D32_SFLOAT_S8_UINT,
    }
}

/// Each texture format becomes the Vulkan format of the same name: the same
/// channels, the same bits per channel and the same numeric type.
pub proof fn lemma_image_format_names()
    ensures
        spec_image_format(TextureFormat::R8Unorm) == vk::FORMAT_R8_UNORM,
        spec_image_format(TextureFormat::R8UnormSRGB) == vk::FORMAT_R8_SRGB,
        spec_image_format(TextureFormat::R8Snorm) == vk::FORMAT_R8_SNORM,
        spec_image_format(TextureFormat::R8Uint) == vk::FORMAT_R8_UINT,
        spec_image_format(TextureFormat::R8Sint) == vk::FORMAT_R8_SINT,
        spec_image_format(TextureFormat::R8G8Unorm) == vk::FORMAT_R8G8_UNORM,
        spec_image_format(TextureFormat::R8G8Uint) == vk::FORMAT_R8G8_UINT,
        spec_image_format(TextureFormat::R8G8B8A8Unorm) == vk::FORMAT_R8G8B8A8_UNORM,
        spec_image_format(TextureFormat::R8G8B8A8Uint) == vk::FORMAT_R8G8B8A8_UINT,
        spec_image_format(TextureFormat::B8G8R8A8Unorm) == vk::FORMAT_B8G8R8A8_UNORM,
        spec_image_format(TextureFormat::B8G8R8A8UnormSRGB) == vk::FORMAT_B8G8R8A8_SRGB,
        spec_image_format(TextureFormat::D32Float) == vk::FORMAT_D32_SFLOAT,
        spec_image_format(TextureFormat::D32FloatS8Uint) == vk::FORMAT_D32_SFLOAT_S8_UINT,
{
}

/// Distinct texture formats never become the same Vulkan format.
pub proof fn lemma_image_format_injective(a: TextureFormat, b: TextureFormat)
    ensures
        spec_image_format(a) == spec_image_format(b) ==> a == b,
{
}

/// A format has a depth or stencil aspect exactly when its Vulkan format is
/// one of the depth formats.
pub proof fn lemma_image_format_depth(f: TextureFormat)
    ensures
        spec_is_depth_or_stencil(f) <==> (spec_image_format(f) == vk::FORMAT_D32_SFLOAT || spec_image_format(f)
            == vk::FORMAT_D32_SFLOAT_S8_UINT),
        spec_is_stencil(f) <==> spec_image_format(f) == vk::FORMAT_D32_SFLOAT_S8_UINT,
{
}

/// Vulkan formats that map back to a texture format.
pub open spec fn is_known_surface_format(format: i32) -> bool {
    format == vk::FORMAT_B8G8R8A8_SRGB || format == vk::FORMAT_B8G8R8A8_UNORM
}

/// The texture format of a Vulkan surface format. Only the two BGRA8 formats
/// are known.
pub fn texture_format(format: i32) -> (r: TextureFormat)
    requires
        is_known_surface_format(format),
    ensures
        spec_image_format(r) == format,
{
    if format == vk::FORMAT_B8G8R8A8_SRGB {
        TextureFormat::B8G8R8A8UnormSRGB
    } else {
        TextureFormat::B8G8R8A8Unorm
    }
}

pub open spec fn spec_pixel_size(format: TextureFormat) -> u32 {
    match format {
        TextureFormat::R8Unorm | TextureFormat::R8UnormSRGB | TextureFormat::R8Snorm
        | TextureFormat::R8Uint | TextureFormat::R8Sint => 1,
        TextureFormat::R8G8Unorm | TextureFormat::R8G8Uint => 2,
        TextureFormat::R8G8B8A8Unorm | TextureFormat::R8G8B8A8Uint | TextureFormat::B8G8R8A8Unorm
        | TextureFormat::B8G8R8A8UnormSRGB => 4,
        TextureFormat::D32Float => 8,
        TextureFormat::D32FloatS8Uint => 16,
    }
}

/// Bytes per texel of a format.
pub fn pixel_size(format: TextureFormat) -> (r: u32)
    ensures
        r == spec_pixel_size(format),
{
    match format {
        TextureFormat::R8Unorm | TextureFormat::R8UnormSRGB | TextureFormat::R8Snorm
        | TextureFormat::R8Uint | TextureFormat::R8Sint => 1,
        TextureFormat::R8G8Unorm | TextureFormat::R8G8Uint => 2,
        TextureFormat::R8G8B8A8Unorm | TextureFormat::R8G8B8A8Uint | TextureFormat::B8G8R8A8Unorm
        | TextureFormat::B8G8R8A8UnormSRGB => 4,
        TextureFormat::D32Float => 8,
        TextureFormat::D32FloatS8Uint => 16,
    }
}

pub open spec fn spec_aspect_mask(format: TextureFormat) -> u32 {
    if spec_is_depth_or_stencil(format) {
        bit_if(spec_is_depth(format), vk::IMAGE_ASPECT_DEPTH) | bit_if(
            spec_is_stencil(format),
            vk::IMAGE_ASPECT_STENCIL,
        )
    } else {
        vk::IMAGE_ASPECT_COLOR
    }
}

/// A view of a format covers the depth aspect exactly when the format has
/// depth, the stencil aspect exactly when it has stencil, and the color aspect
/// exactly when it has neither; no other aspect.
pub proof fn lemma_aspect_mask_bits(format: TextureFormat)
    ensures
        spec_aspect_mask(format) & vk::IMAGE_ASPECT_DEPTH != 0 <==> spec_is_depth(format),
        spec_aspect_mask(format) & vk::IMAGE_ASPECT_STENCIL != 0 <==> spec_is_stencil(format),
        spec_aspect_mask(format) & vk::IMAGE_ASPECT_COLOR != 0 <==> !spec_is_depth_or_stencil(format),
        spec_aspect_mask(format) & !(vk::IMAGE_ASPECT_COLOR | vk::IMAGE_ASPECT_DEPTH | vk::IMAGE_ASPECT_STENCIL) == 0,
{
    let de = spec_is_depth(format);
    let st = spec_is_stencil(format);
    let r = spec_aspect_mask(format);
    assert(r == if de || st {
        (if de { 0x2u32 } else { 0u32 }) | (if st { 0x4u32 } else { 0u32 })
    } else {
        0x1u32
    });
    assert({
        &&& (0x1u32 | 0x2u32 | 0x4u32 == 0x7u32)
        &&& (r & 0x2u32 != 0 <==> de)
        &&& (r & 0x4u32 != 0 <==> st)
        &&& (r & 0x1u32 != 0 <==> !(de || st))
        &&& r & !0x7u32 == 0
    }) by (bit_vector)
        requires
            r == if de || st {
                (if de { 0x2u32 } else { 0u32 }) | (if st { 0x4u32 } else { 0u32 })
            } else {
                0x1u32
            },
    ;
}

/// The Vulkan aspects of a format: depth and/or stencil, else color.
pub fn aspect_mask(format: TextureFormat) -> (r: u32)
    ensures
        r == spec_aspect_mask(format),
        r != 0,
{
    let flags = pick(is_depth(format), vk::IMAGE_ASPECT_DEPTH) | pick(
        is_stencil(format),
        vk::IMAGE_ASPECT_STENCIL,
    );
    proof {
        if !spec_is_depth_or_stencil(format) {
            assert(0u32 | 0u32 == 0u32) by (bit_vector);
        } else {
            assert(2u32 | 0u32 == 2u32 && 2u32 | 4u32 == 6u32) by (bit_vector);
        }
    }
    if flags != 0 {
        flags
    } else {
        vk::IMAGE_ASPECT_COLOR
    }
}

pub open spec fn spec_pipeline_stage(usage: TextureUsageFlags, format: TextureFormat) -> u32 {
    if usage.bits == TEXTURE_USAGE_NONE {
        vk::PIPELINE_STAGE_TOP_OF_PIPE
    } else {
        bit_if(
            usage.bits & (TEXTURE_USAGE_TRANSFER_SRC | TEXTURE_USAGE_TRANSFER_DST) != 0,
            vk::PIPELINE_STAGE_TRANSFER,
        ) | bit_if(
            usage.bits & (TEXTURE_USAGE_SAMPLED | TEXTURE_USAGE_STORAGE) != 0,
            vk::PIPELINE_STAGE_VERTEX_SHADER | vk::PIPELINE_STAGE_FRAGMENT_SHADER
                | vk::PIPELINE_STAGE_COMPUTE_SHADER,
        ) | bit_if(
            usage.bits & TEXTURE_USAGE_OUTPUT_ATTACHMENT != 0,
            if spec_is_depth_or_stencil(format) {
                vk::PIPELINE_STAGE_EARLY_FRAGMENT_TESTS | vk::PIPELINE_STAGE_LATE_FRAGMENT_TESTS
            } else {
                vk::PIPELINE_STAGE_COLOR_ATTACHMENT_OUTPUT
            },
        ) | bit_if(usage.bits & TEXTURE_USAGE_PRESENT != 0, vk::PIPELINE_STAGE_BOTTOM_OF_PIPE)
    }
}

/// The stages a texture usage takes place in: copies in the transfer stage,
/// sampling and storage in the vertex, fragment and compute shader stages,
/// rendering to a depth or stencil format in the fragment test stages and to
/// any other format in the color output stage, presenting at the bottom of
/// the pipe; a texture with no usage waits on the top of the pipe. No other
/// stage is ever named.
pub proof fn lemma_texture_pipeline_stage_bits(usage: TextureUsageFlags, format: TextureFormat)
    ensures
        spec_pipeline_stage(usage, format) & vk::PIPELINE_STAGE_TOP_OF_PIPE != 0 <==> usage.bits == TEXTURE_USAGE_NONE,
        spec_pipeline_stage(usage, format) & vk::PIPELINE_STAGE_TRANSFER != 0 <==> usage.bits & (TEXTURE_USAGE_TRANSFER_SRC
            | TEXTURE_USAGE_TRANSFER_DST) != 0,
        spec_pipeline_stage(usage, format) & vk::PIPELINE_STAGE_VERTEX_SHADER != 0 <==> usage.bits & (TEXTURE_USAGE_SAMPLED
            | TEXTURE_USAGE_STORAGE) != 0,
        spec_pipeline_stage(usage, format) & vk::PIPELINE_STAGE_FRAGMENT_SHADER != 0 <==> usage.bits & (
        TEXTURE_USAGE_SAMPLED | TEXTURE_USAGE_STORAGE) != 0,
        spec_pipeline_stage(usage, format) & vk::PIPELINE_STAGE_COMPUTE_SHADER != 0 <==> usage.bits & (TEXTURE_USAGE_SAMPLED
            | TEXTURE_USAGE_STORAGE) != 0,
        spec_pipeline_stage(usage, format) & vk::PIPELINE_STAGE_EARLY_FRAGMENT_TESTS != 0 <==> (usage.bits
            & TEXTURE_USAGE_OUTPUT_ATTACHMENT != 0 && spec_is_depth_or_stencil(format)),
        spec_pipeline_stage(usage, format) & vk::PIPELINE_STAGE_LATE_FRAGMENT_TESTS != 0 <==> (usage.bits
            & TEXTURE_USAGE_OUTPUT_ATTACHMENT != 0 && spec_is_depth_or_stencil(format)),
        spec_pipeline_stage(usage, format) & vk::PIPELINE_STAGE_COLOR_ATTACHMENT_OUTPUT != 0 <==> (usage.bits
            & TEXTURE_USAGE_OUTPUT_ATTACHMENT != 0 && !spec_is_depth_or_stencil(format)),
        spec_pipeline_stage(usage, format) & vk::PIPELINE_STAGE_BOTTOM_OF_PIPE != 0 <==> usage.bits & TEXTURE_USAGE_PRESENT
            != 0,
        spec_pipeline_stage(usage, format) & !(vk::PIPELINE_STAGE_TOP_OF_PIPE | vk::PIPELINE_STAGE_TRANSFER
            | vk::PIPELINE_STAGE_VERTEX_SHADER | vk::PIPELINE_STAGE_FRAGMENT_SHADER | vk::PIPELINE_STAGE_COMPUTE_SHADER
            | vk::PIPELINE_STAGE_EARLY_FRAGMENT_TESTS | vk::PIPELINE_STAGE_LATE_FRAGMENT_TESTS
            | vk::PIPELINE_STAGE_COLOR_ATTACHMENT_OUTPUT | vk::PIPELINE_STAGE_BOTTOM_OF_PIPE) == 0,
{
    let u = usage.bits;
    let d = spec_is_depth_or_stencil(format);
    let a: u32 = if d { 0x300u32 } else { 0x400u32 };
    let r = spec_pipeline_stage(usage, format);
    assert({
        &&& (0x8u32 | 0x80u32 | 0x800u32 == 0x888u32)
        &&& (0x100u32 | 0x200u32 == 0x300u32)
        &&& (1u32 | 2u32 == 3u32)
        &&& (4u32 | 8u32 == 12u32)
        &&& (0x1u32 | 0x1000u32 | 0x8u32 | 0x80u32 | 0x800u32 | 0x100u32 | 0x200u32 | 0x400u32 | 0x2000u32
            == 0x3f89u32)
    }) by (bit_vector);
    assert(r == (if u == 0u32 { 0x1u32 } else { (if u & 3u32 != 0 { 0x1000u32 } else { 0u32 }) | (if u & 12u32 != 0 { 0x888u32 } else { 0u32 }) | (if u & 16u32 != 0 { a } else { 0u32 }) | (if u & 32u32 != 0 { 0x2000u32 } else { 0u32 }) }));
    assert({
        &&& (r & 0x1u32 != 0 <==> u == 0u32)
        &&& (r & 0x1000u32 != 0 <==> u & 3u32 != 0)
        &&& (r & 0x8u32 != 0 <==> u & 12u32 != 0)
        &&& (r & 0x80u32 != 0 <==> u & 12u32 != 0)
        &&& (r & 0x800u32 != 0 <==> u & 12u32 != 0)
        &&& (r & 0x100u32 != 0 <==> (u & 16u32 != 0 && d))
        &&& (r & 0x200u32 != 0 <==> (u & 16u32 != 0 && d))
        &&& (r & 0x400u32 != 0 <==> (u & 16u32 != 0 && !d))
        &&& (r & 0x2000u32 != 0 <==> u & 32u32 != 0)
        &&& r & !0x3f89u32 == 0
    }) by (bit_vector)
        requires
            r == (if u == 0u32 { 0x1u32 } else { (if u & 3u32 != 0 { 0x1000u32 } else { 0u32 }) | (if u & 12u32 != 0 { 0x888u32 } else { 0u32 }) | (if u & 16u32 != 0 { a } else { 0u32 }) | (if u & 32u32 != 0 { 0x2000u32 } else { 0u32 }) }),
            d ==> a == 0x300u32,
            !d ==> a == 0x400u32,
    ;
}

/// The pipeline stages in which a texture usage takes place.
pub fn pipeline_stage(usage: TextureUsageFlags, format: TextureFormat) -> (r: u32)
    ensures
        r == spec_pipeline_stage(usage, format),
{
    if usage.bits == TEXTURE_USAGE_NONE {
        return vk::PIPELINE_STAGE_TOP_OF_PIPE;
    }
    let attach: u32 = if is_depth_or_stencil(format) {
        vk::PIPELINE_STAGE_EARLY_FRAGMENT_TESTS | vk::PIPELINE_STAGE_LATE_FRAGMENT_TESTS
    } else {
        vk::PIPELINE_STAGE_COLOR_ATTACHMENT_OUTPUT
    };
    pick(
        usage.bits & (TEXTURE_USAGE_TRANSFER_SRC | TEXTURE_USAGE_TRANSFER_DST) != 0,
        vk::PIPELINE_STAGE_TRANSFER,
    ) | pick(
        usage.bits & (TEXTURE_USAGE_SAMPLED | TEXTURE_USAGE_STORAGE) != 0,
        vk::PIPELINE_STAGE_VERTEX_SHADER | vk::PIPELINE_STAGE_FRAGMENT_SHADER
            | vk::PIPELINE_STAGE_COMPUTE_SHADER,
    ) | pick(usage.bits & TEXTURE_USAGE_OUTPUT_ATTACHMENT != 0, attach) | pick(
        usage.bits & TEXTURE_USAGE_PRESENT != 0,
        vk::PIPELINE_STAGE_BOTTOM_OF_PIPE,
    )
}

pub open spec fn spec_access_flags(usage: TextureUsageFlags, format: TextureFormat) -> u32 {
    bit_if(usage.bits & TEXTURE_USAGE_TRANSFER_SRC != 0, vk::ACCESS_TRANSFER_READ) | bit_if(
        usage.bits & TEXTURE_USAGE_TRANSFER_DST != 0,
        vk::ACCESS_TRANSFER_WRITE,
    ) | bit_if(usage.bits & TEXTURE_USAGE_SAMPLED != 0, vk::ACCESS_SHADER_READ) | bit_if(
        usage.bits & TEXTURE_USAGE_STORAGE != 0,
        vk::ACCESS_SHADER_READ | vk::ACCESS_SHADER_WRITE,
    ) | bit_if(
        usage.bits & TEXTURE_USAGE_OUTPUT_ATTACHMENT != 0,
        if spec_is_depth_or_stencil(format) {
            vk::ACCESS_DEPTH_STENCIL_ATTACHMENT_READ | vk::ACCESS_DEPTH_STENCIL_ATTACHMENT_WRITE
        } else {
            vk::ACCESS_COLOR_ATTACHMENT_READ | vk::ACCESS_COLOR_ATTACHMENT_WRITE
        },
    )
}

/// The accesses a texture usage performs: copying from it is a transfer read
/// and copying to it a transfer write, sampling is a shader read, storage is a
/// shader read and write, and rendering reads and writes the depth-stencil
/// attachment for a depth or stencil format and the color attachment for any
/// other. Presenting accesses nothing, and no other access is ever named.
pub proof fn lemma_texture_access_flags_bits(usage: TextureUsageFlags, format: TextureFormat)
    ensures
        spec_access_flags(usage, format) & vk::ACCESS_TRANSFER_READ != 0 <==> usage.bits & TEXTURE_USAGE_TRANSFER_SRC != 0,
        spec_access_flags(usage, format) & vk::ACCESS_TRANSFER_WRITE != 0 <==> usage.bits & TEXTURE_USAGE_TRANSFER_DST
            != 0,
        spec_access_flags(usage, format) & vk::ACCESS_SHADER_READ != 0 <==> usage.bits & (TEXTURE_USAGE_SAMPLED
            | TEXTURE_USAGE_STORAGE) != 0,
        spec_access_flags(usage, format) & vk::ACCESS_SHADER_WRITE != 0 <==> usage.bits & TEXTURE_USAGE_STORAGE != 0,
        spec_access_flags(usage, format) & vk::ACCESS_COLOR_ATTACHMENT_READ != 0 <==> (usage.bits
            & TEXTURE_USAGE_OUTPUT_ATTACHMENT != 0 && !spec_is_depth_or_stencil(format)),
        spec_access_flags(usage, format) & vk::ACCESS_COLOR_ATTACHMENT_WRITE != 0 <==> (usage.bits
            & TEXTURE_USAGE_OUTPUT_ATTACHMENT != 0 && !spec_is_depth_or_stencil(format)),
        spec_access_flags(usage, format) & vk::ACCESS_DEPTH_STENCIL_ATTACHMENT_READ != 0 <==> (usage.bits
            & TEXTURE_USAGE_OUTPUT_ATTACHMENT != 0 && spec_is_depth_or_stencil(format)),
        spec_access_flags(usage, format) & vk::ACCESS_DEPTH_STENCIL_ATTACHMENT_WRITE != 0 <==> (usage.bits
            & TEXTURE_USAGE_OUTPUT_ATTACHMENT != 0 && spec_is_depth_or_stencil(format)),
        spec_access_flags(usage, format) & !(vk::ACCESS_TRANSFER_READ | vk::ACCESS_TRANSFER_WRITE
            | vk::ACCESS_SHADER_READ | vk::ACCESS_SHADER_WRITE | vk::ACCESS_COLOR_ATTACHMENT_READ
            | vk::ACCESS_COLOR_ATTACHMENT_WRITE | vk::ACCESS_DEPTH_STENCIL_ATTACHMENT_READ
            | vk::ACCESS_DEPTH_STENCIL_ATTACHMENT_WRITE) == 0,
{
    let u = usage.bits;
    let d = spec_is_depth_or_stencil(format);
    let a: u32 = if d { 0x600u32 } else { 0x180u32 };
    let r = spec_access_flags(usage, format);
    assert({
        &&& (0x20u32 | 0x40u32 == 0x60u32)
        &&& (0x200u32 | 0x400u32 == 0x600u32)
        &&& (0x80u32 | 0x100u32 == 0x180u32)
        &&& (4u32 | 8u32 == 12u32)
        &&& (0x800u32 | 0x1000u32 | 0x20u32 | 0x40u32 | 0x80u32 | 0x100u32 | 0x200u32 | 0x400u32 == 0x1fe0u32)
    }) by (bit_vector);
    assert(r == ((if u & 1u32 != 0 { 0x800u32 } else { 0u32 }) | (if u & 2u32 != 0 { 0x1000u32 } else { 0u32 }) | (if u & 4u32 != 0 { 0x20u32 } else { 0u32 }) | (if u & 8u32 != 0 { 0x60u32 } else { 0u32 }) | (if u & 16u32 != 0 { a } else { 0u32 })));
    assert({
        &&& (r & 0x800u32 != 0 <==> u & 1u32 != 0)
        &&& (r & 0x1000u32 != 0 <==> u & 2u32 != 0)
        &&& (r & 0x20u32 != 0 <==> u & 12u32 != 0)
        &&& (r & 0x40u32 != 0 <==> u & 8u32 != 0)
        &&& (r & 0x80u32 != 0 <==> (u & 16u32 != 0 && !d))
        &&& (r & 0x100u32 != 0 <==> (u & 16u32 != 0 && !d))
        &&& (r & 0x200u32 != 0 <==> (u & 16u32 != 0 && d))
        &&& (r & 0x400u32 != 0 <==> (u & 16u32 != 0 && d))
        &&& r & !0x1fe0u32 == 0
    }) by (bit_vector)
        requires
            r == ((if u & 1u32 != 0 { 0x800u32 } else { 0u32 }) | (if u & 2u32 != 0 { 0x1000u32 } else { 0u32 }) | (if u & 4u32 != 0 { 0x20u32 } else { 0u32 }) | (if u & 8u32 != 0 { 0x60u32 } else { 0u32 }) | (if u & 16u32 != 0 { a } else { 0u32 })),
            d ==> a == 0x600u32,
            !d ==> a == 0x180u32,
    ;
}

/// The memory accesses a texture usage performs. Presenting accesses nothing.
pub fn access_flags(usage: TextureUsageFlags, format: TextureFormat) -> (r: u32)
    ensures
        r == spec_access_flags(usage, format),
{
    let attach: u32 = if is_depth_or_stencil(format) {
        vk::ACCESS_DEPTH_STENCIL_ATTACHMENT_READ | vk::ACCESS_DEPTH_STENCIL_ATTACHMENT_WRITE
    } else {
        vk::ACCESS_COLOR_ATTACHMENT_READ | vk::ACCESS_COLOR_ATTACHMENT_WRITE
    };
    pick(usage.bits & TEXTURE_USAGE_TRANSFER_SRC != 0, vk::ACCESS_TRANSFER_READ) | pick(
        usage.bits & TEXTURE_USAGE_TRANSFER_DST != 0,
        vk::ACCESS_TRANSFER_WRITE,
    ) | pick(usage.bits & TEXTURE_USAGE_SAMPLED != 0, vk::ACCESS_SHADER_READ) | pick(
        usage.bits & TEXTURE_USAGE_STORAGE != 0,
        vk::ACCESS_SHADER_READ | vk::ACCESS_SHADER_WRITE,
    ) | pick(usage.bits & TEXTURE_USAGE_OUTPUT_ATTACHMENT != 0, attach)
}

/// Texture usages made only of the defined usage bits.
pub open spec fn valid_texture_usage(usage: TextureUsageFlags) -> bool {
    usage.bits < 64
}

pub open spec fn spec_image_layout(usage: TextureUsageFlags, format: TextureFormat) -> i32 {
    if usage.bits == TEXTURE_USAGE_NONE {
        vk::IMAGE_LAYOUT_UNDEFINED
    } else if !crate::util::spec_has_zero_or_one_bits(usage.bits) {
        vk::IMAGE_LAYOUT_GENERAL
    } else if usage.bits == TEXTURE_USAGE_TRANSFER_DST {
        vk::IMAGE_LAYOUT_TRANSFER_DST_OPTIMAL
    } else if usage.bits == TEXTURE_USAGE_SAMPLED {
        vk::IMAGE_LAYOUT_SHADER_READ_ONLY_OPTIMAL
    } else if usage.bits == TEXTURE_USAGE_TRANSFER_SRC {
        vk::IMAGE_LAYOUT_TRANSFER_SRC_OPTIMAL
    } else if usage.bits == TEXTURE_USAGE_STORAGE {
        vk::IMAGE_LAYOUT_GENERAL
    } else if usage.bits == TEXTURE_USAGE_OUTPUT_ATTACHMENT {
        if spec_is_depth_or_stencil(format) {
            vk::IMAGE_LAYOUT_DEPTH_STENCIL_ATTACHMENT_OPTIMAL
        } else {
            vk::IMAGE_LAYOUT_COLOR_ATTACHMENT_OPTIMAL
        }
    } else {
        vk::IMAGE_LAYOUT_PRESENT_SRC_KHR
    }
}

/// The image layout for a usage: undefined for no usage, general for a
/// combination of usages, else the layout best suited to the one usage.
pub fn image_layout(usage: TextureUsageFlags, format: TextureFormat) -> (r: i32)
    requires
        valid_texture_usage(usage),
    ensures
        r == spec_image_layout(usage, format),
{
    let b = usage.bits;
    if b == TEXTURE_USAGE_NONE {
        return vk::IMAGE_LAYOUT_UNDEFINED;
    }
    if !crate::util::has_zero_or_one_bits(b) {
        return vk::IMAGE_LAYOUT_GENERAL;
    }
    assert(b == 1 || b == 2 || b == 4 || b == 8 || b == 16 || b == 32) by (bit_vector)
        requires
            b != 0,
            b & ((b - 1) as u32) == 0,
            b < 64;
    if b == TEXTURE_USAGE_TRANSFER_DST {
        vk::IMAGE_LAYOUT_TRANSFER_DST_OPTIMAL
    } else if b == TEXTURE_USAGE_SAMPLED {
        vk::IMAGE_LAYOUT_SHADER_READ_ONLY_OPTIMAL
    } else if b == TEXTURE_USAGE_TRANSFER_SRC {
        vk::IMAGE_LAYOUT_TRANSFER_SRC_OPTIMAL
    } else if b == TEXTURE_USAGE_STORAGE {
        vk::IMAGE_LAYOUT_GENERAL
    } else if b == TEXTURE_USAGE_OUTPUT_ATTACHMENT {
        if is_depth_or_stencil(format) {
            vk::IMAGE_LAYOUT_DEPTH_STENCIL_ATTACHMENT_OPTIMAL
        } else {
            vk::IMAGE_LAYOUT_COLOR_ATTACHMENT_OPTIMAL
        }
    } else {
        vk::IMAGE_LAYOUT_PRESENT_SRC_KHR
    }
}

/// The texture usages, each one bit.
pub open spec fn is_single_texture_usage(bits: u32) -> bool {
    bits == TEXTURE_USAGE_TRANSFER_SRC || bits == TEXTURE_USAGE_TRANSFER_DST || bits == TEXTURE_USAGE_SAMPLED
        || bits == TEXTURE_USAGE_STORAGE || bits == TEXTURE_USAGE_OUTPUT_ATTACHMENT || bits == TEXTURE_USAGE_PRESENT
}

proof fn lemma_one_bit(a: u32)
    requires
        is_single_texture_usage(a),
    ensures
        a != 0,
        a & ((a - 1) as u32) == 0,
{
    let x = a;
    assert(x == 1 || x == 2 || x == 4 || x == 8 || x == 16 || x == 32 ==> x & ((x - 1) as u32) == 0) by (bit_vector);
}

/// A texture with one usage is in the layout Vulkan names for that usage:
/// copied from in transfer-source layout, copied to in transfer-destination
/// layout, sampled in shader-read-only layout, used as storage in the general
/// layout, rendered to in the color or depth-stencil attachment layout its
/// format calls for, and presented in the present layout.
pub proof fn lemma_image_layout_of_one_usage(format: TextureFormat)
    ensures
        spec_image_layout(TextureUsageFlags { bits: TEXTURE_USAGE_TRANSFER_SRC }, format)
            == vk::IMAGE_LAYOUT_TRANSFER_SRC_OPTIMAL,
        spec_image_layout(TextureUsageFlags { bits: TEXTURE_USAGE_TRANSFER_DST }, format)
            == vk::IMAGE_LAYOUT_TRANSFER_DST_OPTIMAL,
        spec_image_layout(TextureUsageFlags { bits: TEXTURE_USAGE_SAMPLED }, format)
            == vk::IMAGE_LAYOUT_SHADER_READ_ONLY_OPTIMAL,
        spec_image_layout(TextureUsageFlags { bits: TEXTURE_USAGE_STORAGE }, format) == vk::IMAGE_LAYOUT_GENERAL,
        spec_image_layout(TextureUsageFlags { bits: TEXTURE_USAGE_OUTPUT_ATTACHMENT }, format) == if spec_is_depth_or_stencil(
            format,
        ) {
            vk::IMAGE_LAYOUT_DEPTH_STENCIL_ATTACHMENT_OPTIMAL
        } else {
            vk::IMAGE_LAYOUT_COLOR_ATTACHMENT_OPTIMAL
        },
        spec_image_layout(TextureUsageFlags { bits: TEXTURE_USAGE_PRESENT }, format) == vk::IMAGE_LAYOUT_PRESENT_SRC_KHR,
{
    lemma_one_bit(TEXTURE_USAGE_TRANSFER_SRC);
    lemma_one_bit(TEXTURE_USAGE_TRANSFER_DST);
    lemma_one_bit(TEXTURE_USAGE_SAMPLED);
    lemma_one_bit(TEXTURE_USAGE_STORAGE);
    lemma_one_bit(TEXTURE_USAGE_OUTPUT_ATTACHMENT);
    lemma_one_bit(TEXTURE_USAGE_PRESENT);
}

/// Every single usage has a layout of its own: two different ones never
/// share a layout.
pub proof fn lemma_image_layout_distinguishes_usages(a: u32, b: u32, format: TextureFormat)
    requires
        is_single_texture_usage(a),
        is_single_texture_usage(b),
        a != b,
    ensures
        spec_image_layout(TextureUsageFlags { bits: a }, format) != spec_image_layout(
            TextureUsageFlags { bits: b },
            format,
        ),
{
    lemma_image_layout_of_one_usage(format);
}

/// A texture with no usage has an undefined layout, and one that holds two
/// different usages at once is in the general layout.
pub proof fn lemma_image_layout_of_no_or_several_usages(usage: TextureUsageFlags, a: u32, b: u32, format: TextureFormat)
    requires
        is_single_texture_usage(a),
        is_single_texture_usage(b),
        a != b,
    ensures
        usage.bits == TEXTURE_USAGE_NONE ==> spec_image_layout(usage, format) == vk::IMAGE_LAYOUT_UNDEFINED,
        usage.bits & a != 0 && usage.bits & b != 0 ==> spec_image_layout(usage, format) == vk::IMAGE_LAYOUT_GENERAL,
{
    let x = usage.bits;
    assert(x & a != 0 && x & b != 0 && a != b && a != 0 && b != 0 && a & ((a - 1) as u32) == 0 && b & ((b - 1)
        as u32) == 0 ==> x != 0 && x & ((x - 1) as u32) != 0) by (bit_vector);
    lemma_one_bit(a);
    lemma_one_bit(b);
}

/// The view covering a whole texture: all mip levels and array layers, the
/// texture's format, dimension and aspects.
pub fn default_texture_view_descriptor(descriptor: &TextureDescriptor) -> (r: TextureViewDescriptor)
    ensures
        r.format == descriptor.format,
        r.array_layer_count == descriptor.array_layer_count,
        r.mip_level_count == descriptor.mip_level_count,
        r.base_array_layer == 0,
        r.base_mip_level == 0,
        r.aspect.bits == spec_aspect_mask(descriptor.format),
        r.dimension == match descriptor.dimension {
            TextureDimension::D1 => TextureViewDimension::D1,
            TextureDimension::D2 => TextureViewDimension::D2,
            TextureDimension::D3 => TextureViewDimension::D3,
        },
{
    let aspect = TextureAspectFlags { bits: aspect_mask(descriptor.format) };
    let dimension = match descriptor.dimension {
        TextureDimension::D1 => TextureViewDimension::D1,
        TextureDimension::D2 => TextureViewDimension::D2,
        TextureDimension::D3 => TextureViewDimension::D3,
    };
    TextureViewDescriptor {
        array_layer_count: descriptor.array_layer_count,
        format: descriptor.format,
        mip_level_count: descriptor.mip_level_count,
        dimension,
        base_array_layer: 0,
        base_mip_level: 0,
        aspect,
    }
}

/// Image creation flags: cube compatible when the texture has at least six
/// layers and square faces.
pub fn image_create_flags(descriptor: &TextureDescriptor) -> (r: u32)
    ensures
        r == if descriptor.array_layer_count >= 6 && descriptor.size.width
            == descriptor.size.height {
            vk::IMAGE_CREATE_CUBE_COMPATIBLE
        } else {
            0
        },
{
    if descriptor.array_layer_count >= 6 && descriptor.size.width == descriptor.size.height {
        vk::IMAGE_CREATE_CUBE_COMPATIBLE
    } else {
        0
    }
}

/// How an image is created for a texture: optimal tiling, one queue family,
/// undefined initial layout.
#[derive(Clone, Copy, Debug, PartialEq, Eq, Structural, Hash)]
pub struct ImagePlan {
    pub flags: u32,
    pub image_type: i32,
    pub format: i32,
    pub extent: Extent3D,
    pub mip_levels: u32,
    pub array_layers: u32,
    pub samples: u32,
    pub usage: u32,
    pub memory_usage: MemoryUsage,
}

impl Device {
    /// Works out how to create the image of a texture. Fails with a validation
    /// error when the sample count is not one Vulkan knows.
    pub fn create_texture(&self, descriptor: &TextureDescriptor) -> (r: Result<ImagePlan, Error>)
        ensures
            r is Ok <==> valid_sample_count(descriptor.sample_count),
            r matches Err(e) ==> e.kind == ErrorKind::Code(vk::RESULT_ERROR_VALIDATION_FAILED_EXT),
            r matches Ok(p) ==> {
                &&& p.flags == (if descriptor.array_layer_count >= 6 && descriptor.size.width
                    == descriptor.size.height {
                    vk::IMAGE_CREATE_CUBE_COMPATIBLE
                } else {
                    0
                })
                &&& p.image_type == spec_image_type(descriptor.dimension)
                &&& p.format == spec_image_format(descriptor.format)
                &&& p.extent == descriptor.size
                &&& p.mip_levels == descriptor.mip_level_count
                &&& p.array_layers == descriptor.array_layer_count
                &&& p.samples == descriptor.sample_count
                &&& p.usage == spec_image_usage(descriptor.usage, descriptor.format)
                &&& p.memory_usage == MemoryUsage::GpuOnly
            },
    {
        let samples = match sample_count(descriptor.sample_count) {
            Ok(s) => s,
            Err(e) => {
                return Err(e);
            },
        };
        Ok(ImagePlan {
            flags: image_create_flags(descriptor),
            image_type: image_type(descriptor.dimension),
            format: image_format(descriptor.format),
            extent: descriptor.size,
            mip_levels: descriptor.mip_level_count,
            array_layers: descriptor.array_layer_count,
            samples,
            usage: image_usage(descriptor.usage, descriptor.format),
            memory_usage: MemoryUsage::GpuOnly,
        })
    }
}

/// How an image view is created: the texture's image, the view's format and
/// type, the identity swizzle, and the subresource range the view
/// describes, its aspect bits taken as they are.
#[derive(Clone, Copy, Debug, PartialEq, Eq, Structural, Hash)]
pub struct ImageViewPlan {
    pub image: u64,
    pub format: i32,
    pub view_type: i32,
    pub aspect_mask: u32,
    pub base_mip_level: u32,
    pub level_count: u32,
    pub base_array_layer: u32,
    pub layer_count: u32,
}

pub fn texture_view_plan(texture_handle: u64, descriptor: &TextureViewDescriptor) -> (r: ImageViewPlan)
    ensures
        r.image == texture_handle,
        r.format == spec_image_format(descriptor.format),
        r.view_type == spec_image_view_type(descriptor.dimension),
        r.aspect_mask == descriptor.aspect.bits,
        r.base_mip_level == descriptor.base_mip_level,
        r.level_count == descriptor.mip_level_count,
        r.base_array_layer == descriptor.base_array_layer,
        r.layer_count == descriptor.array_layer_count,
{
    ImageViewPlan {
        image: texture_handle,
        format: image_format(descriptor.format),
        view_type: image_view_type(descriptor),
        aspect_mask: descriptor.aspect.bits,
        base_mip_level: descriptor.base_mip_level,
        level_count: descriptor.mip_level_count,
        base_array_layer: descriptor.base_array_layer,
        layer_count: descriptor.array_layer_count,
    }
}

impl Texture {
    /// How a view of the texture described by `descriptor` is created.
    pub fn create_view(&self, descriptor: TextureViewDescriptor) -> (r: ImageViewPlan)
        ensures
            r.image == self.handle,
            r.format == spec_image_format(descriptor.format),
            r.view_type == spec_image_view_type(descriptor.dimension),
            r.aspect_mask == descriptor.aspect.bits,
            r.base_mip_level == descriptor.base_mip_level,
            r.level_count == descriptor.mip_level_count,
            r.base_array_layer == descriptor.base_array_layer,
            r.layer_count == descriptor.array_layer_count,
    {
        texture_view_plan(self.handle, &descriptor)
    }

    /// How the view covering the whole texture is created: every mip level
    /// and array layer, all of the format's aspects.
    pub fn create_default_view(&self) -> (r: ImageViewPlan)
        ensures
            r.image == self.handle,
            r.format == spec_image_format(self.descriptor.format),
            r.view_type == match self.descriptor.dimension {
                TextureDimension::D1 => vk::IMAGE_VIEW_TYPE_1D,
                TextureDimension::D2 => vk::IMAGE_VIEW_TYPE_2D,
                TextureDimension::D3 => vk::IMAGE_VIEW_TYPE_3D,
            },
            r.aspect_mask == spec_aspect_mask(self.descriptor.format),
            r.base_mip_level == 0,
            r.level_count == self.descriptor.mip_level_count,
            r.base_array_layer == 0,
            r.layer_count == self.descriptor.array_layer_count,
    {
        let descriptor = default_texture_view_descriptor(&self.descriptor);
        self.create_view(descriptor)
    }
}

/// Sample count of the viewed texture and its size at the view's base mip level.
pub fn sample_count_and_mipmap_size(texture: &TextureDescriptor, view: &TextureViewDescriptor) -> (r: (
    u32,
    Extent3D,
))
    requires
        view.base_mip_level < 32,
    ensures
        r.0 == texture.sample_count,
        r.1.width == texture.size.width >> view.base_mip_level,
        r.1.height == texture.size.height >> view.base_mip_level,
        r.1.depth == texture.size.depth >> view.base_mip_level,
{
    let base_mip_level = view.base_mip_level;
    let width = texture.size.width >> base_mip_level;
    let height = texture.size.height >> base_mip_level;
    let depth = texture.size.depth >> base_mip_level;
    (texture.sample_count, Extent3D { width, height, depth })
}

} // verus!

verus! {

/// One mip level of one array layer of a texture.
#[derive(Clone, Copy, Debug, PartialEq, Eq, Structural, Hash)]
pub struct Subresource {
    pub mip_level: u32,
    pub array_layer: u32,
}

/// A layout and access transition for one subresource of an image.
#[derive(Clone, Copy, Debug, PartialEq, Eq, Structural, Hash)]
pub struct ImageBarrier {
    pub src_access_mask: u32,
    pub dst_access_mask: u32,
    pub old_layout: i32,
    pub new_layout: i32,
    pub aspect_mask: u32,
    pub mip_level: u32,
    pub array_layer: u32,
}

/// The image barriers of a transition, held in a `smallvec::SmallVec` with
/// room for sixteen inline.
#[verifier::external_body]
#[derive(Debug)]
pub struct ImageBarriers {
    inner: SmallVec<[ImageBarrier; 16]>,
}

/// The barriers an `ImageBarriers` holds, in order.
pub uninterp spec fn held_barriers(v: ImageBarriers) -> Seq<ImageBarrier>;

/// `smallvec::SmallVec::new`: a vector that holds nothing yet.
#[verifier::external_body]
fn new_image_barriers() -> (r: ImageBarriers)
    ensures
        held_barriers(r) == Seq::<ImageBarrier>::empty(),
{
    ImageBarriers { inner: SmallVec::new() }
}

/// `smallvec::SmallVec::push`: appends the barrier after the others. The
/// vector panics only when the capacity it grows to would overflow `usize`;
/// that bound is left unsaid here.
#[verifier::external_body]
fn push_image_barrier(v: &mut ImageBarriers, barrier: ImageBarrier)
    ensures
        held_barriers(*final(v)) == held_barriers(*old(v)).push(barrier),
{
    v.inner.push(barrier);
}

/// `smallvec::SmallVec::as_slice`: the barriers, in order.
#[verifier::external_body]
fn image_barriers_slice(v: &ImageBarriers) -> (r: &[ImageBarrier])
    ensures
        r@ == held_barriers(*v),
{
    v.inner.as_slice()
}

/// The pipeline barrier needed to move subresources to a new usage. No barrier
/// needs recording when there are no image barriers.
#[derive(Debug)]
pub struct TextureTransition {
    pub src_stage_mask: u32,
    pub dst_stage_mask: u32,
    pub barriers: ImageBarriers,
}

impl TextureTransition {
    /// The image barriers to record, in order.
    pub fn image_barriers(&self) -> (r: &[ImageBarrier])
        ensures
            r@ == held_barriers(self.barriers),
    {
        image_barriers_slice(&self.barriers)
    }
}

/// The last usage of every subresource of a texture.
#[derive(Clone, Debug)]
pub struct SubresourceUsageTracker {
    usages: Vec<TextureUsageFlags>,
    aspect_mask: u32,
    format: TextureFormat,
    mip_levels: u32,
    array_layers: u32,
}

/// A subresource whose last usage was read-only and equals the new usage
/// needs no barrier; every other one does.
pub open spec fn needs_barrier(last: TextureUsageFlags, usage: TextureUsageFlags) -> bool {
    !((last.bits & (TEXTURE_USAGE_TRANSFER_SRC | TEXTURE_USAGE_SAMPLED | TEXTURE_USAGE_PRESENT))
        == last.bits && last == usage)
}

/// The barrier for the subresource at flat index `i` (layer-major).
pub open spec fn barrier_at(
    i: int,
    last: TextureUsageFlags,
    usage: TextureUsageFlags,
    format: TextureFormat,
    aspect_mask: u32,
    mip_levels: u32,
) -> ImageBarrier {
    ImageBarrier {
        src_access_mask: spec_access_flags(last, format),
        dst_access_mask: spec_access_flags(usage, format),
        old_layout: spec_image_layout(last, format),
        new_layout: spec_image_layout(usage, format),
        aspect_mask,
        mip_level: ((i as u32) % mip_levels) as u32,
        array_layer: ((i as u32) / mip_levels) as u32,
    }
}

/// Barriers for the first `k` subresources, in index order.
pub open spec fn barriers_upto(
    old: Seq<TextureUsageFlags>,
    k: nat,
    usage: TextureUsageFlags,
    format: TextureFormat,
    aspect_mask: u32,
    mip_levels: u32,
) -> Seq<ImageBarrier>
    decreases k,
{
    if k == 0 {
        Seq::empty()
    } else {
        let prev = barriers_upto(old, (k - 1) as nat, usage, format, aspect_mask, mip_levels);
        if needs_barrier(old[k - 1], usage) {
            prev.push(barrier_at(k - 1, old[k - 1], usage, format, aspect_mask, mip_levels))
        } else {
            prev
        }
    }
}

/// Source stages of the first `k` subresources that need a barrier.
pub open spec fn src_stages_upto(
    old: Seq<TextureUsageFlags>,
    k: nat,
    usage: TextureUsageFlags,
    format: TextureFormat,
) -> u32
    decreases k,
{
    if k == 0 {
        0
    } else {
        src_stages_upto(old, (k - 1) as nat, usage, format) | bit_if(
            needs_barrier(old[k - 1], usage),
            spec_pipeline_stage(old[k - 1], format),
        )
    }
}

pub proof fn lemma_index_in_range(mip: u32, layer: u32, mips: u32, layers: u32)
    requires
        mip < mips,
        layer < layers,
    ensures
        0 <= layer * mips + mip < mips * layers,
{
    assert(layer * mips + mip < mips * layers) by (nonlinear_arith)
        requires
            mip < mips,
            layer < layers,
    ;
    assert(0 <= layer * mips) by (nonlinear_arith);
}

impl SubresourceUsageTracker {
    /// One usage per subresource, all valid texture usages.
    pub open spec fn wf(&self) -> bool {
        &&& self.usages_view().len() == self.mip_levels() * self.array_layers()
        &&& self.mip_levels() * self.array_layers() <= u32::MAX
        &&& forall|i: int|
            0 <= i < self.usages_view().len() ==> valid_texture_usage(#[trigger] self.usages_view()[i])
    }

    /// Last usage of every subresource, layer-major.
    pub closed spec fn usages_view(&self) -> Seq<TextureUsageFlags> {
        self.usages@
    }

    pub closed spec fn mip_levels(&self) -> nat {
        self.mip_levels as nat
    }

    pub closed spec fn array_layers(&self) -> nat {
        self.array_layers as nat
    }

    pub closed spec fn format(&self) -> TextureFormat {
        self.format
    }

    pub closed spec fn aspect(&self) -> u32 {
        self.aspect_mask
    }

    /// Flat index of a subresource.
    pub open spec fn index_of(&self, s: Subresource) -> int {
        s.array_layer * self.mip_levels() + s.mip_level
    }

    /// The subresource lies within the texture.
    pub open spec fn contains(&self, s: Subresource) -> bool {
        s.mip_level < self.mip_levels() && s.array_layer < self.array_layers()
    }

    /// A tracker for a texture of `mip_levels` by `array_layers` subresources,
    /// none of them used yet.
    pub fn new(mip_levels: u32, array_layers: u32, format: TextureFormat) -> (r: Self)
        requires
            mip_levels * array_layers <= u32::MAX,
        ensures
            r.wf(),
            r.mip_levels() == mip_levels,
            r.array_layers() == array_layers,
            r.format() == format,
            r.aspect() == spec_aspect_mask(format),
            forall|i: int|
                0 <= i < r.usages_view().len() ==> (#[trigger] r.usages_view()[i]).bits
                    == TEXTURE_USAGE_NONE,
    {
        let n = mip_levels * array_layers;
        let mut usages: Vec<TextureUsageFlags> = Vec::new();
        let mut i: u32 = 0;
        while i < n
            invariant
                i <= n,
                usages@.len() == i,
                forall|j: int| 0 <= j < i ==> (#[trigger] usages@[j]).bits == TEXTURE_USAGE_NONE,
            decreases n - i,
        {
            usages.push(TextureUsageFlags { bits: TEXTURE_USAGE_NONE });
            i = i + 1;
        }
        SubresourceUsageTracker {
            usages,
            aspect_mask: aspect_mask(format),
            format,
            mip_levels,
            array_layers,
        }
    }

    /// Moves the given subresource, or every subresource when `subresource`
    /// is `None`, to `usage`, and returns the barrier that orders the move
    /// after the previous usages. Subresources whose previous usage was
    /// read-only and equal to `usage` need no barrier.
    pub fn transition_usage_now(&mut self, usage: TextureUsageFlags, subresource: Option<
        Subresource,
    >) -> (r: TextureTransition)
        requires
            old(self).wf(),
            valid_texture_usage(usage),
            subresource matches Some(s) ==> old(self).contains(s),
        ensures
            final(self).wf(),
            final(self).mip_levels() == old(self).mip_levels(),
            final(self).array_layers() == old(self).array_layers(),
            final(self).format() == old(self).format(),
            final(self).aspect() == old(self).aspect(),
            r.dst_stage_mask == spec_pipeline_stage(usage, old(self).format()),
            match subresource {
                Some(s) => {
                    let i = old(self).index_of(s);
                    let last = old(self).usages_view()[i];
                    &&& final(self).usages_view() == old(self).usages_view().update(i, usage)
                    &&& r.src_stage_mask == bit_if(
                        needs_barrier(last, usage),
                        spec_pipeline_stage(last, old(self).format()),
                    )
                    &&& held_barriers(r.barriers) == if needs_barrier(last, usage) {
                        seq![
                            ImageBarrier {
                                src_access_mask: spec_access_flags(last, old(self).format()),
                                dst_access_mask: spec_access_flags(usage, old(self).format()),
                                old_layout: spec_image_layout(last, old(self).format()),
                                new_layout: spec_image_layout(usage, old(self).format()),
                                aspect_mask: old(self).aspect(),
                                mip_level: s.mip_level,
                                array_layer: s.array_layer,
                            },
                        ]
                    } else {
                        Seq::<ImageBarrier>::empty()
                    }
                },
                None => {
                    &&& final(self).usages_view() == Seq::new(
                        old(self).usages_view().len(),
                        |i: int| usage,
                    )
                    &&& r.src_stage_mask == src_stages_upto(
                        old(self).usages_view(),
                        old(self).usages_view().len(),
                        usage,
                        old(self).format(),
                    )
                    &&& held_barriers(r.barriers) == barriers_upto(
                        old(self).usages_view(),
                        old(self).usages_view().len(),
                        usage,
                        old(self).format(),
                        old(self).aspect(),
                        old(self).mip_levels() as u32,
                    )
                },
            },
    {
        let format = self.format;
        let dst_stage_mask = pipeline_stage(usage, format);
        let dst_access_mask = access_flags(usage, format);
        let new_layout = image_layout(usage, format);
        let ro = read_only_texture_usage();
        match subresource {
            Some(s) => {
                proof {
                    lemma_index_in_range(s.mip_level, s.array_layer, self.mip_levels, self.array_layers);
                }
                let i = (s.array_layer * self.mip_levels + s.mip_level) as usize;
                let last = self.usages[i];
                let mut barriers = new_image_barriers();
                let mut src_stage_mask: u32 = 0;
                if !((last.bits & ro.bits) == last.bits && last == usage) {
                    src_stage_mask = pipeline_stage(last, format);
                    push_image_barrier(
                        &mut barriers,
                        ImageBarrier {
                            src_access_mask: access_flags(last, format),
                            dst_access_mask,
                            old_layout: image_layout(last, format),
                            new_layout,
                            aspect_mask: self.aspect_mask,
                            mip_level: s.mip_level,
                            array_layer: s.array_layer,
                        },
                    );
                }
                self.usages.set(i, usage);
                proof {
                    assert forall|j: int| 0 <= j < self.usages_view().len() implies valid_texture_usage(
                        #[trigger] self.usages_view()[j],
                    ) by {
                        if j != i {
                            assert(self.usages_view()[j] == old(self).usages_view()[j]);
                        }
                    }
                }
                TextureTransition { src_stage_mask, dst_stage_mask, barriers }
            },
            None => {
                let n = self.usages.len();
                let ghost old_u = self.usages@;
                let mut barriers = new_image_barriers();
                let mut src_stage_mask: u32 = 0;
                let mut i: usize = 0;
                while i < n
                    invariant
                        n == old_u.len(),
                        self.usages@.len() == n,
                        n == self.mip_levels * self.array_layers,
                        self.mip_levels * self.array_layers <= u32::MAX,
                        self.format == format,
                        self.mip_levels == old(self).mip_levels,
                        self.array_layers == old(self).array_layers,
                        self.aspect_mask == old(self).aspect_mask,
                        self.format == old(self).format,
                        old_u == old(self).usages@,
                        i <= n,
                        valid_texture_usage(usage),
                        dst_access_mask == spec_access_flags(usage, format),
                        new_layout == spec_image_layout(usage, format),
                        ro.bits == TEXTURE_USAGE_TRANSFER_SRC | TEXTURE_USAGE_SAMPLED
                            | TEXTURE_USAGE_PRESENT,
                        forall|j: int| 0 <= j < n ==> valid_texture_usage(#[trigger] old_u[j]),
                        forall|j: int| 0 <= j < i ==> #[trigger] self.usages@[j] == usage,
                        forall|j: int| i <= j < n ==> #[trigger] self.usages@[j] == old_u[j],
                        held_barriers(barriers) == barriers_upto(
                            old_u,
                            i as nat,
                            usage,
                            format,
                            self.aspect_mask,
                            self.mip_levels,
                        ),
                        src_stage_mask == src_stages_upto(old_u, i as nat, usage, format),
                    decreases n - i,
                {
                    let last = self.usages[i];
                    let needs = !((last.bits & ro.bits) == last.bits && last == usage);
                    let stage = pipeline_stage(last, format);
                    src_stage_mask = src_stage_mask | pick(needs, stage);
                    if needs {
                        let iu = i as u32;
                        push_image_barrier(
                        &mut barriers,
                            ImageBarrier {
                                src_access_mask: access_flags(last, format),
                                dst_access_mask,
                                old_layout: image_layout(last, format),
                                new_layout,
                                aspect_mask: self.aspect_mask,
                                mip_level: iu % self.mip_levels,
                                array_layer: iu / self.mip_levels,
                            },
                        );
                    }
                    self.usages.set(i, usage);
                    i = i + 1;
                }
                proof {
                    assert(self.usages@ =~= Seq::new(old_u.len(), |j: int| usage));
                }
                TextureTransition { src_stage_mask, dst_stage_mask, barriers }
            },
        }
    }
}

/// A usage that only reads: a mix of copying from, sampling and presenting.
pub open spec fn read_only_usage(usage: TextureUsageFlags) -> bool {
    usage.bits & (TEXTURE_USAGE_TRANSFER_SRC | TEXTURE_USAGE_SAMPLED | TEXTURE_USAGE_PRESENT) == usage.bits
}

/// Moving a whole texture to a read-only usage it already has in every
/// subresource needs no barrier and waits on no stage: a second transition to
/// the same read-only usage records nothing.
pub proof fn lemma_repeated_read_only_transition_is_free(
    n: nat,
    usage: TextureUsageFlags,
    format: TextureFormat,
    aspect_mask: u32,
    mip_levels: u32,
)
    requires
        read_only_usage(usage),
    ensures
        barriers_upto(Seq::new(n, |i: int| usage), n, usage, format, aspect_mask, mip_levels)
            == Seq::<ImageBarrier>::empty(),
        src_stages_upto(Seq::new(n, |i: int| usage), n, usage, format) == 0,
    decreases n,
{
    let s = Seq::new(n, |i: int| usage);
    if n > 0 {
        lemma_barriers_of_uniform_prefix((n - 1) as nat, n, usage, format, aspect_mask, mip_levels);
        assert(!needs_barrier(s[n - 1], usage));
        assert(0u32 | 0u32 == 0u32) by (bit_vector);
    }
}

proof fn lemma_barriers_of_uniform_prefix(
    k: nat,
    n: nat,
    usage: TextureUsageFlags,
    format: TextureFormat,
    aspect_mask: u32,
    mip_levels: u32,
)
    requires
        read_only_usage(usage),
        k <= n,
    ensures
        barriers_upto(Seq::new(n, |i: int| usage), k, usage, format, aspect_mask, mip_levels)
            == Seq::<ImageBarrier>::empty(),
        src_stages_upto(Seq::new(n, |i: int| usage), k, usage, format) == 0,
    decreases k,
{
    let s = Seq::new(n, |i: int| usage);
    if k > 0 {
        lemma_barriers_of_uniform_prefix((k - 1) as nat, n, usage, format, aspect_mask, mip_levels);
        assert(s[k - 1] == usage);
        assert(!needs_barrier(s[k - 1], usage));
        assert(bit_if(false, spec_pipeline_stage(s[k - 1], format)) == 0);
        assert(0u32 | 0u32 == 0u32) by (bit_vector);
    }
}

} // verus!
