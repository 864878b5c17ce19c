use vstd::prelude::*;

use crate::error::{Error, ErrorKind};
use crate::flags::{COLOR_WRITE_ALPHA, COLOR_WRITE_BLUE, COLOR_WRITE_GREEN, COLOR_WRITE_RED, ColorWriteFlags};
use crate::render_pass::{ColorInfo, DepthStencilInfo, RenderPassCacheQuery, sample_count, valid_sample_count};
use crate::resources::{
    BindGroupLayout, ComputePipelineDescriptor, Device, PipelineLayout, PipelineLayoutDescriptor, PipelineStageDescriptor,
};
use crate::sampler::{compare_op, spec_compare_op};
use crate::texture::{bit_if, pick};
use crate::types::{
    BlendFactor, BlendOperation, ColorStateDescriptor, CompareFunction, CullMode,
    DepthStencilStateDescriptor, FrontFace, InputStateDescriptor, InputStepMode, LoadOp,
    PrimitiveTopology, StencilOperation, StencilStateFaceDescriptor, TextureFormat,
    VertexAttributeDescriptor, VertexFormat, VertexInputDescriptor,
};
use crate::vk;
use vstd::string::StringSliceAdditionalSpecFns;

verus! {

/// The most bytes of push constants a pipeline may use.
pub const MAX_PUSH_CONSTANTS_SIZE: usize = 128;

pub open spec fn spec_primitive_topology(primitive: PrimitiveTopology) -> i32 {
    match primitive {
        PrimitiveTopology::LineList => vk::PRIMITIVE_TOPOLOGY_LINE_LIST,
        PrimitiveTopology::LineStrip => vk::PRIMITIVE_TOPOLOGY_LINE_STRIP,
        PrimitiveTopology::PointList => vk::PRIMITIVE_TOPOLOGY_POINT_LIST,
        PrimitiveTopology::TriangleList => vk::PRIMITIVE_TOPOLOGY_TRIANGLE_LIST,
        PrimitiveTopology::TriangleStrip => vk::PRIMITIVE_TOPOLOGY_TRIANGLE_STRIP,
    }
}

/// Each `PrimitiveTopology` becomes the Vulkan value named for it.
pub proof fn lemma_primitive_topology_names()
    ensures
        spec_primitive_topology(PrimitiveTopology::LineList) == vk::PRIMITIVE_TOPOLOGY_LINE_LIST,
        spec_primitive_topology(PrimitiveTopology::LineStrip) == vk::PRIMITIVE_TOPOLOGY_LINE_STRIP,
        spec_primitive_topology(PrimitiveTopology::PointList) == vk::PRIMITIVE_TOPOLOGY_POINT_LIST,
        spec_primitive_topology(PrimitiveTopology::TriangleList) == vk::PRIMITIVE_TOPOLOGY_TRIANGLE_LIST,
        spec_primitive_topology(PrimitiveTopology::TriangleStrip) == vk::PRIMITIVE_TOPOLOGY_TRIANGLE_STRIP,
{
}

/// Distinct `PrimitiveTopology` values never become the same Vulkan value.
pub proof fn lemma_primitive_topology_injective(a: PrimitiveTopology, b: PrimitiveTopology)
    ensures
        spec_primitive_topology(a) == spec_primitive_topology(b) ==> a == b,
{
}

pub fn primitive_topology(primitive: PrimitiveTopology) -> (r: i32)
    ensures
        r == spec_primitive_topology(primitive),
{
    match primitive {
        PrimitiveTopology::LineList => vk::PRIMITIVE_TOPOLOGY_LINE_LIST,
        PrimitiveTopology::LineStrip => vk::PRIMITIVE_TOPOLOGY_LINE_STRIP,
        PrimitiveTopology::PointList => vk::PRIMITIVE_TOPOLOGY_POINT_LIST,
        PrimitiveTopology::TriangleList => vk::PRIMITIVE_TOPOLOGY_TRIANGLE_LIST,
        PrimitiveTopology::TriangleStrip => vk::PRIMITIVE_TOPOLOGY_TRIANGLE_STRIP,
    }
}

pub open spec fn spec_blend_factor(f: BlendFactor) -> i32 {
    match f {
        BlendFactor::Zero => vk::BLEND_FACTOR_ZERO,
        BlendFactor::One => vk::BLEND_FACTOR_ONE,
        BlendFactor::SrcColor => vk::BLEND_FACTOR_SRC_COLOR,
        BlendFactor::OneMinusSrcColor => vk::BLEND_FACTOR_ONE_MINUS_SRC_COLOR,
        BlendFactor::SrcAlpha => vk::BLEND_FACTOR_SRC_ALPHA,
        BlendFactor::OneMinusSrcAlpha => vk::BLEND_FACTOR_ONE_MINUS_SRC_ALPHA,
        BlendFactor::DstColor => vk::BLEND_FACTOR_DST_COLOR,
        BlendFactor::OneMinusDstColor => vk::BLEND_FACTOR_ONE_MINUS_DST_COLOR,
        BlendFactor::DstAlpha => vk::BLEND_FACTOR_DST_ALPHA,
        BlendFactor::OneMinusDstAlpha => vk::BLEND_FACTOR_ONE_MINUS_DST_ALPHA,
        BlendFactor::BlendColor => vk::BLEND_FACTOR_CONSTANT_COLOR,
        BlendFactor::OneMinusBlendColor => vk::BLEND_FACTOR_ONE_MINUS_CONSTANT_COLOR,
        BlendFactor::SrcAlphaSaturated => vk::BLEND_FACTOR_SRC_ALPHA_SATURATE,
    }
}

pub fn blend_factor(factor: BlendFactor) -> (r: i32)
    ensures
        r == spec_blend_factor(factor),
{
    match factor {
        BlendFactor::Zero => vk::BLEND_FACTOR_ZERO,
        BlendFactor::One => vk::BLEND_FACTOR_ONE,
        BlendFactor::SrcColor => vk::BLEND_FACTOR_SRC_COLOR,
        BlendFactor::OneMinusSrcColor => vk::BLEND_FACTOR_ONE_MINUS_SRC_COLOR,
        BlendFactor::SrcAlpha => vk::BLEND_FACTOR_SRC_ALPHA,
        BlendFactor::OneMinusSrcAlpha => vk::BLEND_FACTOR_ONE_MINUS_SRC_ALPHA,
        BlendFactor::DstColor => vk::BLEND_FACTOR_DST_COLOR,
        BlendFactor::OneMinusDstColor => vk::BLEND_FACTOR_ONE_MINUS_DST_COLOR,
        BlendFactor::DstAlpha => vk::BLEND_FACTOR_DST_ALPHA,
        BlendFactor::OneMinusDstAlpha => vk::BLEND_FACTOR_ONE_MINUS_DST_ALPHA,
        BlendFactor::BlendColor => vk::BLEND_FACTOR_CONSTANT_COLOR,
        BlendFactor::OneMinusBlendColor => vk::BLEND_FACTOR_ONE_MINUS_CONSTANT_COLOR,
        BlendFactor::SrcAlphaSaturated => vk::BLEND_FACTOR_SRC_ALPHA_SATURATE,
    }
}

/// The factor that is one minus `f`, where the library has one.
pub open spec fn complement_factor(f: BlendFactor) -> Option<BlendFactor> {
    match f {
        BlendFactor::Zero => Some(BlendFactor::One),
        BlendFactor::SrcColor => Some(BlendFactor::OneMinusSrcColor),
        BlendFactor::SrcAlpha => Some(BlendFactor::OneMinusSrcAlpha),
        BlendFactor::DstColor => Some(BlendFactor::OneMinusDstColor),
        BlendFactor::DstAlpha => Some(BlendFactor::OneMinusDstAlpha),
        BlendFactor::BlendColor => Some(BlendFactor::OneMinusBlendColor),
        _ => None,
    }
}

/// Each blend factor becomes the Vulkan blend factor of the same name; the
/// blend color is Vulkan's constant color.
pub proof fn lemma_blend_factor_names()
    ensures
        spec_blend_factor(BlendFactor::Zero) == vk::BLEND_FACTOR_ZERO,
        spec_blend_factor(BlendFactor::One) == vk::BLEND_FACTOR_ONE,
        spec_blend_factor(BlendFactor::SrcColor) == vk::BLEND_FACTOR_SRC_COLOR,
        spec_blend_factor(BlendFactor::OneMinusSrcColor) == vk::BLEND_FACTOR_ONE_MINUS_SRC_COLOR,
        spec_blend_factor(BlendFactor::SrcAlpha) == vk::BLEND_FACTOR_SRC_ALPHA,
        spec_blend_factor(BlendFactor::OneMinusSrcAlpha) == vk::BLEND_FACTOR_ONE_MINUS_SRC_ALPHA,
        spec_blend_factor(BlendFactor::DstColor) == vk::BLEND_FACTOR_DST_COLOR,
        spec_blend_factor(BlendFactor::OneMinusDstColor) == vk::BLEND_FACTOR_ONE_MINUS_DST_COLOR,
        spec_blend_factor(BlendFactor::DstAlpha) == vk::BLEND_FACTOR_DST_ALPHA,
        spec_blend_factor(BlendFactor::OneMinusDstAlpha) == vk::BLEND_FACTOR_ONE_MINUS_DST_ALPHA,
        spec_blend_factor(BlendFactor::BlendColor) == vk::BLEND_FACTOR_CONSTANT_COLOR,
        spec_blend_factor(BlendFactor::OneMinusBlendColor) == vk::BLEND_FACTOR_ONE_MINUS_CONSTANT_COLOR,
        spec_blend_factor(BlendFactor::SrcAlphaSaturated) == vk::BLEND_FACTOR_SRC_ALPHA_SATURATE,
{
}

/// Distinct blend factors never become the same Vulkan factor.
pub proof fn lemma_blend_factor_injective(a: BlendFactor, b: BlendFactor)
    ensures
        spec_blend_factor(a) == spec_blend_factor(b) ==> a == b,
{
}

/// "One minus" a factor is the Vulkan factor right after that factor's own,
/// as Vulkan numbers each factor and its complement.
pub proof fn lemma_blend_factor_complements(f: BlendFactor)
    ensures
        complement_factor(f) matches Some(g) ==> spec_blend_factor(g) == spec_blend_factor(f) + 1,
{
}

pub open spec fn spec_blend_operation(op: BlendOperation) -> i32 {
    match op {
        BlendOperation::Add => vk::BLEND_OP_ADD,
        BlendOperation::Subtract => vk::BLEND_OP_SUBTRACT,
        BlendOperation::ReverseSubtract => vk::BLEND_OP_REVERSE_SUBTRACT,
        BlendOperation::Min => vk::BLEND_OP_MIN,
        BlendOperation::Max => vk::BLEND_OP_MAX,
    }
}

/// Each `BlendOperation` becomes the Vulkan value named for it.
pub proof fn lemma_blend_operation_names()
    ensures
        spec_blend_operation(BlendOperation::Add) == vk::BLEND_OP_ADD,
        spec_blend_operation(BlendOperation::Subtract) == vk::BLEND_OP_SUBTRACT,
        spec_blend_operation(BlendOperation::ReverseSubtract) == vk::BLEND_OP_REVERSE_SUBTRACT,
        spec_blend_operation(BlendOperation::Min) == vk::BLEND_OP_MIN,
        spec_blend_operation(BlendOperation::Max) == vk::BLEND_OP_MAX,
{
}

/// Distinct `BlendOperation` values never become the same Vulkan value.
pub proof fn lemma_blend_operation_injective(a: BlendOperation, b: BlendOperation)
    ensures
        spec_blend_operation(a) == spec_blend_operation(b) ==> a == b,
{
}

pub fn blend_operation(operation: BlendOperation) -> (r: i32)
    ensures
        r == spec_blend_operation(operation),
{
    match operation {
        BlendOperation::Add => vk::BLEND_OP_ADD,
        BlendOperation::Subtract => vk::BLEND_OP_SUBTRACT,
        BlendOperation::ReverseSubtract => vk::BLEND_OP_REVERSE_SUBTRACT,
        BlendOperation::Min => vk::BLEND_OP_MIN,
        BlendOperation::Max => vk::BLEND_OP_MAX,
    }
}

pub open spec fn spec_color_write_mask(color: ColorWriteFlags) -> u32 {
    bit_if(color.bits & COLOR_WRITE_RED != 0, vk::COLOR_COMPONENT_R) | bit_if(
        color.bits & COLOR_WRITE_GREEN != 0,
        vk::COLOR_COMPONENT_G,
    ) | bit_if(color.bits & COLOR_WRITE_BLUE != 0, vk::COLOR_COMPONENT_B) | bit_if(
        color.bits & COLOR_WRITE_ALPHA != 0,
        vk::COLOR_COMPONENT_A,
    )
}

pub fn color_write_mask(color: ColorWriteFlags) -> (r: u32)
    ensures
        r == spec_color_write_mask(color),
{
    pick(color.bits & COLOR_WRITE_RED != 0, vk::COLOR_COMPONENT_R) | pick(
        color.bits & COLOR_WRITE_GREEN != 0,
        vk::COLOR_COMPONENT_G,
    ) | pick(color.bits & COLOR_WRITE_BLUE != 0, vk::COLOR_COMPONENT_B) | pick(
        color.bits & COLOR_WRITE_ALPHA != 0,
        vk::COLOR_COMPONENT_A,
    )
}

/// A color target writes a Vulkan color component exactly when it writes the
/// channel of the same name; the mask holds no other bit.
pub proof fn lemma_color_write_mask_bits(color: ColorWriteFlags)
    ensures
        spec_color_write_mask(color) & vk::COLOR_COMPONENT_R != 0 <==> color.bits & COLOR_WRITE_RED != 0,
        spec_color_write_mask(color) & vk::COLOR_COMPONENT_G != 0 <==> color.bits & COLOR_WRITE_GREEN != 0,
        spec_color_write_mask(color) & vk::COLOR_COMPONENT_B != 0 <==> color.bits & COLOR_WRITE_BLUE != 0,
        spec_color_write_mask(color) & vk::COLOR_COMPONENT_A != 0 <==> color.bits & COLOR_WRITE_ALPHA != 0,
        spec_color_write_mask(color) & !(vk::COLOR_COMPONENT_R | vk::COLOR_COMPONENT_G | vk::COLOR_COMPONENT_B
            | vk::COLOR_COMPONENT_A) == 0,
{
    let c = color.bits;
    let r = spec_color_write_mask(color);
    assert(0x1u32 | 0x2u32 | 0x4u32 | 0x8u32 == 0xfu32) by (bit_vector);
    assert(r == ((if c & 1u32 != 0 { 0x1u32 } else { 0u32 }) | (if c & 2u32 != 0 { 0x2u32 } else { 0u32 }) | (if c
        & 4u32 != 0 { 0x4u32 } else { 0u32 }) | (if c & 8u32 != 0 { 0x8u32 } else { 0u32 })));
    assert({
        &&& (r & 0x1u32 != 0 <==> c & 1u32 != 0)
        &&& (r & 0x2u32 != 0 <==> c & 2u32 != 0)
        &&& (r & 0x4u32 != 0 <==> c & 4u32 != 0)
        &&& (r & 0x8u32 != 0 <==> c & 8u32 != 0)
        &&& r & !0xfu32 == 0
    }) by (bit_vector)
        requires
            r == ((if c & 1u32 != 0 { 0x1u32 } else { 0u32 }) | (if c & 2u32 != 0 { 0x2u32 } else { 0u32 }) | (if c
                & 4u32 != 0 { 0x4u32 } else { 0u32 }) | (if c & 8u32 != 0 { 0x8u32 } else { 0u32 })),
    ;
}

/// Blending is on unless both the color and the alpha equation are
/// `One * src + Zero * dst`.
pub open spec fn spec_blend_enabled(d: ColorStateDescriptor) -> bool {
    d.alpha_blend.operation != BlendOperation::Add || d.alpha_blend.src_factor != BlendFactor::One
        || d.alpha_blend.dst_factor != BlendFactor::Zero || d.color_blend.operation
        != BlendOperation::Add || d.color_blend.src_factor != BlendFactor::One
        || d.color_blend.dst_factor != BlendFactor::Zero
}

pub fn blend_enabled(descriptor: &ColorStateDescriptor) -> (r: bool)
    ensures
        r == spec_blend_enabled(*descriptor),
{
    descriptor.alpha_blend.operation != BlendOperation::Add || descriptor.alpha_blend.src_factor
        != BlendFactor::One || descriptor.alpha_blend.dst_factor != BlendFactor::Zero
        || descriptor.color_blend.operation != BlendOperation::Add
        || descriptor.color_blend.src_factor != BlendFactor::One
        || descriptor.color_blend.dst_factor != BlendFactor::Zero
}

pub open spec fn face_passes_through(f: StencilStateFaceDescriptor) -> bool {
    f.compare == CompareFunction::Always && f.fail_op == StencilOperation::Keep && f.depth_fail_op
        == StencilOperation::Keep && f.pass_op == StencilOperation::Keep
}

/// The stencil test is on unless both faces always pass and keep the stencil.
pub open spec fn spec_stencil_test_enabled(d: DepthStencilStateDescriptor) -> bool {
    !(face_passes_through(d.stencil_back) && face_passes_through(d.stencil_front))
}

pub fn stencil_test_enabled(descriptor: &DepthStencilStateDescriptor) -> (r: bool)
    ensures
        r == spec_stencil_test_enabled(*descriptor),
{
    descriptor.stencil_back.compare != CompareFunction::Always || descriptor.stencil_back.fail_op
        != StencilOperation::Keep || descriptor.stencil_back.depth_fail_op != StencilOperation::Keep
        || descriptor.stencil_back.pass_op != StencilOperation::Keep
        || descriptor.stencil_front.compare != CompareFunction::Always
        || descriptor.stencil_front.fail_op != StencilOperation::Keep
        || descriptor.stencil_front.depth_fail_op != StencilOperation::Keep
        || descriptor.stencil_front.pass_op != StencilOperation::Keep
}

pub open spec fn spec_stencil_op(op: StencilOperation) -> i32 {
    match op {
        StencilOperation::Keep => vk::STENCIL_OP_KEEP,
        StencilOperation::Zero => vk::STENCIL_OP_ZERO,
        StencilOperation::Replace => vk::STENCIL_OP_REPLACE,
        StencilOperation::IncrementClamp => vk::STENCIL_OP_INCREMENT_AND_CLAMP,
        StencilOperation::DecrementClamp => vk::STENCIL_OP_DECREMENT_AND_CLAMP,
        StencilOperation::Invert => vk::STENCIL_OP_INVERT,
        StencilOperation::IncrementWrap => vk::STENCIL_OP_INCREMENT_AND_WRAP,
        StencilOperation::DecrementWrap => vk::STENCIL_OP_DECREMENT_AND_WRAP,
    }
}

/// Each `StencilOperation` becomes the Vulkan value named for it.
pub proof fn lemma_stencil_op_names()
    ensures
        spec_stencil_op(StencilOperation::Keep) == vk::STENCIL_OP_KEEP,
        spec_stencil_op(StencilOperation::Zero) == vk::STENCIL_OP_ZERO,
        spec_stencil_op(StencilOperation::Replace) == vk::STENCIL_OP_REPLACE,
        spec_stencil_op(StencilOperation::IncrementClamp) == vk::STENCIL_OP_INCREMENT_AND_CLAMP,
        spec_stencil_op(StencilOperation::DecrementClamp) == vk::STENCIL_OP_DECREMENT_AND_CLAMP,
        spec_stencil_op(StencilOperation::Invert) == vk::STENCIL_OP_INVERT,
        spec_stencil_op(StencilOperation::IncrementWrap) == vk::STENCIL_OP_INCREMENT_AND_WRAP,
        spec_stencil_op(StencilOperation::DecrementWrap) == vk::STENCIL_OP_DECREMENT_AND_WRAP,
{
}

/// Distinct `StencilOperation` values never become the same Vulkan value.
pub proof fn lemma_stencil_op_injective(a: StencilOperation, b: StencilOperation)
    ensures
        spec_stencil_op(a) == spec_stencil_op(b) ==> a == b,
{
}

pub fn stencil_op(operation: StencilOperation) -> (r: i32)
    ensures
        r == spec_stencil_op(operation),
{
    match operation {
        StencilOperation::Keep => vk::STENCIL_OP_KEEP,
        StencilOperation::Zero => vk::STENCIL_OP_ZERO,
        StencilOperation::Replace => vk::STENCIL_OP_REPLACE,
        StencilOperation::IncrementClamp => vk::STENCIL_OP_INCREMENT_AND_CLAMP,
        StencilOperation::DecrementClamp => vk::STENCIL_OP_DECREMENT_AND_CLAMP,
        StencilOperation::Invert => vk::STENCIL_OP_INVERT,
        StencilOperation::IncrementWrap => vk::STENCIL_OP_INCREMENT_AND_WRAP,
        StencilOperation::DecrementWrap => vk::STENCIL_OP_DECREMENT_AND_WRAP,
    }
}

/// The depth test is on when it can fail or when depth is written.
pub fn depth_test_enabled(descriptor: &DepthStencilStateDescriptor) -> (r: bool)
    ensures
        r == (descriptor.depth_compare != CompareFunction::Always || descriptor.depth_write_enabled),
{
    descriptor.depth_compare != CompareFunction::Always || descriptor.depth_write_enabled
}

/// A depth stencil state that passes every fragment and writes nothing.
pub fn disable_depth_stencil_test() -> (r: DepthStencilStateDescriptor)
    ensures
        r.format == TextureFormat::D32FloatS8Uint,
        !r.depth_write_enabled,
        r.depth_compare == CompareFunction::Always,
        face_passes_through(r.stencil_front),
        face_passes_through(r.stencil_back),
        r.stencil_read_mask == 0,
        r.stencil_write_mask == 0,
{
    DepthStencilStateDescriptor {
        format: TextureFormat::D32FloatS8Uint,
        depth_write_enabled: false,
        depth_compare: CompareFunction::Always,
        stencil_front: StencilStateFaceDescriptor {
            compare: CompareFunction::Always,
            depth_fail_op: StencilOperation::Keep,
            fail_op: StencilOperation::Keep,
            pass_op: StencilOperation::Keep,
        },
        stencil_back: StencilStateFaceDescriptor {
            compare: CompareFunction::Always,
            depth_fail_op: StencilOperation::Keep,
            fail_op: StencilOperation::Keep,
            pass_op: StencilOperation::Keep,
        },
        stencil_read_mask: 0,
        stencil_write_mask: 0,
    }
}

/// The stencil state of one face.
#[derive(Clone, Copy, Debug, PartialEq, Eq, Structural, Hash)]
pub struct StencilOpState {
    pub fail_op: i32,
    pub pass_op: i32,
    pub depth_fail_op: i32,
    pub compare_op: i32,
    pub compare_mask: u32,
    pub write_mask: u32,
    pub reference: u32,
}

/// The integer part of Vulkan's depth stencil state; depth bounds testing is
/// off, with bounds 0 and 1.
#[derive(Clone, Copy, Debug, PartialEq, Eq, Structural, Hash)]
pub struct DepthStencilStateInfo {
    pub depth_test_enable: bool,
    pub depth_write_enable: bool,
    pub depth_compare_op: i32,
    pub depth_bounds_test_enable: bool,
    pub stencil_test_enable: bool,
    pub front: StencilOpState,
    pub back: StencilOpState,
}

pub open spec fn spec_stencil_face(f: StencilStateFaceDescriptor, read_mask: u32, write_mask: u32) -> StencilOpState {
    StencilOpState {
        fail_op: spec_stencil_op(f.fail_op),
        pass_op: spec_stencil_op(f.pass_op),
        depth_fail_op: spec_stencil_op(f.depth_fail_op),
        compare_op: spec_compare_op(f.compare),
        compare_mask: read_mask,
        write_mask,
        reference: 0,
    }
}

fn stencil_face(f: &StencilStateFaceDescriptor, read_mask: u32, write_mask: u32) -> (r: StencilOpState)
    ensures
        r == spec_stencil_face(*f, read_mask, write_mask),
{
    StencilOpState {
        fail_op: stencil_op(f.fail_op),
        pass_op: stencil_op(f.pass_op),
        depth_fail_op: stencil_op(f.depth_fail_op),
        compare_op: compare_op(f.compare),
        compare_mask: read_mask,
        write_mask,
        reference: 0,
    }
}

pub open spec fn spec_depth_stencil_state(d: DepthStencilStateDescriptor) -> DepthStencilStateInfo {
    DepthStencilStateInfo {
        depth_test_enable: d.depth_compare != CompareFunction::Always || d.depth_write_enabled,
        depth_write_enable: d.depth_write_enabled,
        depth_compare_op: spec_compare_op(d.depth_compare),
        depth_bounds_test_enable: false,
        stencil_test_enable: spec_stencil_test_enabled(d),
        front: spec_stencil_face(d.stencil_front, d.stencil_read_mask, d.stencil_write_mask),
        back: spec_stencil_face(d.stencil_back, d.stencil_read_mask, d.stencil_write_mask),
    }
}

pub fn depth_stencil_state_create_info(descriptor: DepthStencilStateDescriptor) -> (r: DepthStencilStateInfo)
    ensures
        r == spec_depth_stencil_state(descriptor),
{
    DepthStencilStateInfo {
        depth_test_enable: depth_test_enabled(&descriptor),
        depth_write_enable: descriptor.depth_write_enabled,
        depth_compare_op: compare_op(descriptor.depth_compare),
        depth_bounds_test_enable: false,
        stencil_test_enable: stencil_test_enabled(&descriptor),
        front: stencil_face(&descriptor.stencil_front, descriptor.stencil_read_mask, descriptor.stencil_write_mask),
        back: stencil_face(&descriptor.stencil_back, descriptor.stencil_read_mask, descriptor.stencil_write_mask),
    }
}

pub open spec fn spec_cull_mode(mode: CullMode) -> u32 {
    match mode {
        CullMode::Back => vk::CULL_MODE_BACK,
        CullMode::Front => vk::CULL_MODE_FRONT,
        CullMode::Disabled => vk::CULL_MODE_NONE,
    }
}

/// Each `CullMode` becomes the Vulkan value named for it.
pub proof fn lemma_cull_mode_names()
    ensures
        spec_cull_mode(CullMode::Back) == vk::CULL_MODE_BACK,
        spec_cull_mode(CullMode::Front) == vk::CULL_MODE_FRONT,
        spec_cull_mode(CullMode::Disabled) == vk::CULL_MODE_NONE,
{
}

/// Distinct `CullMode` values never become the same Vulkan value.
pub proof fn lemma_cull_mode_injective(a: CullMode, b: CullMode)
    ensures
        spec_cull_mode(a) == spec_cull_mode(b) ==> a == b,
{
}

pub fn cull_mode(mode: CullMode) -> (r: u32)
    ensures
        r == spec_cull_mode(mode),
{
    match mode {
        CullMode::Back => vk::CULL_MODE_BACK,
        CullMode::Front => vk::CULL_MODE_FRONT,
        CullMode::Disabled => vk::CULL_MODE_NONE,
    }
}

pub open spec fn spec_front_face(face: FrontFace) -> i32 {
    match face {
        FrontFace::Ccw => vk::FRONT_FACE_COUNTER_CLOCKWISE,
        FrontFace::Cw => vk::FRONT_FACE_CLOCKWISE,
    }
}

/// Each `FrontFace` becomes the Vulkan value named for it.
pub proof fn lemma_front_face_names()
    ensures
        spec_front_face(FrontFace::Ccw) == vk::FRONT_FACE_COUNTER_CLOCKWISE,
        spec_front_face(FrontFace::Cw) == vk::FRONT_FACE_CLOCKWISE,
{
}

/// Distinct `FrontFace` values never become the same Vulkan value.
pub proof fn lemma_front_face_injective(a: FrontFace, b: FrontFace)
    ensures
        spec_front_face(a) == spec_front_face(b) ==> a == b,
{
}

pub fn front_face(face: FrontFace) -> (r: i32)
    ensures
        r == spec_front_face(face),
{
    match face {
        FrontFace::Ccw => vk::FRONT_FACE_COUNTER_CLOCKWISE,
        FrontFace::Cw => vk::FRONT_FACE_CLOCKWISE,
    }
}

/// How primitives are rasterized. The two floating point values are held as
/// their IEEE-754 single precision bit patterns.
#[derive(Clone, Copy, Debug, PartialEq, Eq, Structural, Hash)]
pub struct RasterizationStateDescriptor {
    pub front_face: FrontFace,
    pub cull_mode: CullMode,
    pub depth_bias: i32,
    pub depth_bias_slope_scale_bits: u32,
    pub depth_bias_clamp_bits: u32,
}

/// The rasterization state: filled polygons, one pixel wide lines, no depth
/// clamp, depth bias on when a constant bias is given.
#[derive(Clone, Copy, Debug, PartialEq, Eq, Structural, Hash)]
pub struct RasterizationStateInfo {
    pub cull_mode: u32,
    pub front_face: i32,
    pub depth_bias_enable: bool,
    pub depth_bias_constant: i32,
    pub depth_bias_slope_bits: u32,
    pub depth_bias_clamp_bits: u32,
}

pub open spec fn spec_rasterization_state(d: RasterizationStateDescriptor) -> RasterizationStateInfo {
    RasterizationStateInfo {
        cull_mode: spec_cull_mode(d.cull_mode),
        front_face: spec_front_face(d.front_face),
        depth_bias_enable: d.depth_bias != 0,
        depth_bias_constant: d.depth_bias,
        depth_bias_slope_bits: d.depth_bias_slope_scale_bits,
        depth_bias_clamp_bits: d.depth_bias_clamp_bits,
    }
}

pub fn rasterization_state_create_info(descriptor: &RasterizationStateDescriptor) -> (r: RasterizationStateInfo)
    ensures
        r == spec_rasterization_state(*descriptor),
{
    RasterizationStateInfo {
        cull_mode: cull_mode(descriptor.cull_mode),
        front_face: front_face(descriptor.front_face),
        depth_bias_enable: descriptor.depth_bias != 0,
        depth_bias_constant: descriptor.depth_bias,
        depth_bias_slope_bits: descriptor.depth_bias_slope_scale_bits,
        depth_bias_clamp_bits: descriptor.depth_bias_clamp_bits,
    }
}

/// The blend state of one color target.
#[derive(Clone, Copy, Debug, PartialEq, Eq, Structural, Hash)]
pub struct ColorBlendAttachmentState {
    pub blend_enable: bool,
    pub src_color_blend_factor: i32,
    pub dst_color_blend_factor: i32,
    pub color_blend_op: i32,
    pub src_alpha_blend_factor: i32,
    pub dst_alpha_blend_factor: i32,
    pub alpha_blend_op: i32,
    pub color_write_mask: u32,
}

pub open spec fn spec_color_blend(d: ColorStateDescriptor) -> ColorBlendAttachmentState {
    ColorBlendAttachmentState {
        blend_enable: spec_blend_enabled(d),
        src_color_blend_factor: spec_blend_factor(d.color_blend.src_factor),
        dst_color_blend_factor: spec_blend_factor(d.color_blend.dst_factor),
        color_blend_op: spec_blend_operation(d.color_blend.operation),
        src_alpha_blend_factor: spec_blend_factor(d.alpha_blend.src_factor),
        dst_alpha_blend_factor: spec_blend_factor(d.alpha_blend.dst_factor),
        alpha_blend_op: spec_blend_operation(d.alpha_blend.operation),
        color_write_mask: spec_color_write_mask(d.write_mask),
    }
}

pub fn color_blend_attachment_state(descriptor: &ColorStateDescriptor) -> (r: ColorBlendAttachmentState)
    ensures
        r == spec_color_blend(*descriptor),
{
    ColorBlendAttachmentState {
        blend_enable: blend_enabled(descriptor),
        src_color_blend_factor: blend_factor(descriptor.color_blend.src_factor),
        dst_color_blend_factor: blend_factor(descriptor.color_blend.dst_factor),
        color_blend_op: blend_operation(descriptor.color_blend.operation),
        src_alpha_blend_factor: blend_factor(descriptor.alpha_blend.src_factor),
        dst_alpha_blend_factor: blend_factor(descriptor.alpha_blend.dst_factor),
        alpha_blend_op: blend_operation(descriptor.alpha_blend.operation),
        color_write_mask: color_write_mask(descriptor.write_mask),
    }
}

pub open spec fn spec_vertex_format(format: VertexFormat) -> i32 {
    match format {
        VertexFormat::UChar2 => vk::FORMAT_R8G8_UINT,
        VertexFormat::UChar4 => vk::FORMAT_R8G8B8A8_UINT,
        VertexFormat::Char2 => vk::FORMAT_R8G8_SINT,
        VertexFormat::Char4 => vk::FORMAT_R8G8B8A8_SINT,
        VertexFormat::UChar2Norm => vk::FORMAT_R8G8_UNORM,
        VertexFormat::UChar4Norm => vk::FORMAT_R8G8B8A8_UNORM,
        VertexFormat::Char2Norm => vk::FORMAT_R8G8_SNORM,
        VertexFormat::Char4Norm => vk::FORMAT_R8G8B8A8_SNORM,
        VertexFormat::UShort2 => vk::FORMAT_R16G16_UINT,
        VertexFormat::UShort4 => vk::FORMAT_R16G16B16A16_UINT,
        VertexFormat::Short2 => vk::FORMAT_R16G16_SINT,
        VertexFormat::Short4 => vk::FORMAT_R16G16B16A16_SINT,
        VertexFormat::UShort2Norm => vk::FORMAT_R16G16_UNORM,
        VertexFormat::UShort4Norm => vk::FORMAT_R16G16B16A16_UNORM,
        VertexFormat::Short2Norm => vk::FORMAT_R16G16_SNORM,
        VertexFormat::Short4Norm => vk::FORMAT_R16G16B16A16_SNORM,
        VertexFormat::Half2 => vk::FORMAT_R16G16_SFLOAT,
        VertexFormat::Half4 => vk::FORMAT_R16G16B16A16_SFLOAT,
        VertexFormat::Float => vk::FORMAT_R32_SFLOAT,
        VertexFormat::Float2 => vk::FORMAT_R32G32_SFLOAT,
        VertexFormat::Float3 => vk::FORMAT_R32G32B32_SFLOAT,
        VertexFormat::Float4 => vk::FORMAT_R32G32B32A32_SFLOAT,
        VertexFormat::UInt => vk::FORMAT_R32_UINT,
        VertexFormat::UInt2 => vk::FORMAT_R32G32_UINT,
        VertexFormat::UInt3 => vk::FORMAT_R32G32B32_UINT,
        VertexFormat::UInt4 => vk::FORMAT_R32G32B32A32_UINT,
        VertexFormat::Int => vk::FORMAT_R32_SINT,
        VertexFormat::Int2 => vk::FORMAT_R32G32_SINT,
        VertexFormat::Int3 => vk::FORMAT_R32G32B32_SINT,
        VertexFormat::Int4 => vk::FORMAT_R32G32B32A32_SINT,
    }
}

/// Each `VertexFormat` becomes the Vulkan value named for it.
pub proof fn lemma_vertex_format_names()
    ensures
        spec_vertex_format(VertexFormat::UChar2) == vk::FORMAT_R8G8_UINT,
        spec_vertex_format(VertexFormat::UChar4) == vk::FORMAT_R8G8B8A8_UINT,
        spec_vertex_format(VertexFormat::Char2) == vk::FORMAT_R8G8_SINT,
        spec_vertex_format(VertexFormat::Char4) == vk::FORMAT_R8G8B8A8_SINT,
        spec_vertex_format(VertexFormat::UChar2Norm) == vk::FORMAT_R8G8_UNORM,
        spec_vertex_format(VertexFormat::UChar4Norm) == vk::FORMAT_R8G8B8A8_UNORM,
        spec_vertex_format(VertexFormat::Char2Norm) == vk::FORMAT_R8G8_SNORM,
        spec_vertex_format(VertexFormat::Char4Norm) == vk::FORMAT_R8G8B8A8_SNORM,
        spec_vertex_format(VertexFormat::UShort2) == vk::FORMAT_R16G16_UINT,
        spec_vertex_format(VertexFormat::UShort4) == vk::FORMAT_R16G16B16A16_UINT,
        spec_vertex_format(VertexFormat::Short2) == vk::FORMAT_R16G16_SINT,
        spec_vertex_format(VertexFormat::Short4) == vk::FORMAT_R16G16B16A16_SINT,
        spec_vertex_format(VertexFormat::UShort2Norm) == vk::FORMAT_R16G16_UNORM,
        spec_vertex_format(VertexFormat::UShort4Norm) == vk::FORMAT_R16G16B16A16_UNORM,
        spec_vertex_format(VertexFormat::Short2Norm) == vk::FORMAT_R16G16_SNORM,
        spec_vertex_format(VertexFormat::Short4Norm) == vk::FORMAT_R16G16B16A16_SNORM,
        spec_vertex_format(VertexFormat::Half2) == vk::FORMAT_R16G16_SFLOAT,
        spec_vertex_format(VertexFormat::Half4) == vk::FORMAT_R16G16B16A16_SFLOAT,
        spec_vertex_format(VertexFormat::Float) == vk::FORMAT_R32_SFLOAT,
        spec_vertex_format(VertexFormat::Float2) == vk::FORMAT_R32G32_SFLOAT,
        spec_vertex_format(VertexFormat::Float3) == vk::FORMAT_R32G32B32_SFLOAT,
        spec_vertex_format(VertexFormat::Float4) == vk::FORMAT_R32G32B32A32_SFLOAT,
        spec_vertex_format(VertexFormat::UInt) == vk::FORMAT_R32_UINT,
        spec_vertex_format(VertexFormat::UInt2) == vk::FORMAT_R32G32_UINT,
        spec_vertex_format(VertexFormat::UInt3) == vk::FORMAT_R32G32B32_UINT,
        spec_vertex_format(VertexFormat::UInt4) == vk::FORMAT_R32G32B32A32_UINT,
        spec_vertex_format(VertexFormat::Int) == vk::FORMAT_R32_SINT,
        spec_vertex_format(VertexFormat::Int2) == vk::FORMAT_R32G32_SINT,
        spec_vertex_format(VertexFormat::Int3) == vk::FORMAT_R32G32B32_SINT,
        spec_vertex_format(VertexFormat::Int4) == vk::FORMAT_R32G32B32A32_SINT,
{
}

/// Distinct `VertexFormat` values never become the same Vulkan value.
pub proof fn lemma_vertex_format_injective(a: VertexFormat, b: VertexFormat)
    ensures
        spec_vertex_format(a) == spec_vertex_format(b) ==> a == b,
{
}

pub fn vertex_format(format: VertexFormat) -> (r: i32)
    ensures
        r == spec_vertex_format(format),
{
    match format {
        VertexFormat::UChar2 => vk::FORMAT_R8G8_UINT,
        VertexFormat::UChar4 => vk::FORMAT_R8G8B8A8_UINT,
        VertexFormat::Char2 => vk::FORMAT_R8G8_SINT,
        VertexFormat::Char4 => vk::FORMAT_R8G8B8A8_SINT,
        VertexFormat::UChar2Norm => vk::FORMAT_R8G8_UNORM,
        VertexFormat::UChar4Norm => vk::FORMAT_R8G8B8A8_UNORM,
        VertexFormat::Char2Norm => vk::FORMAT_R8G8_SNORM,
        VertexFormat::Char4Norm => vk::FORMAT_R8G8B8A8_SNORM,
        VertexFormat::UShort2 => vk::FORMAT_R16G16_UINT,
        VertexFormat::UShort4 => vk::FORMAT_R16G16B16A16_UINT,
        VertexFormat::Short2 => vk::FORMAT_R16G16_SINT,
        VertexFormat::Short4 => vk::FORMAT_R16G16B16A16_SINT,
        VertexFormat::UShort2Norm => vk::FORMAT_R16G16_UNORM,
        VertexFormat::UShort4Norm => vk::FORMAT_R16G16B16A16_UNORM,
        VertexFormat::Short2Norm => vk::FORMAT_R16G16_SNORM,
        VertexFormat::Short4Norm => vk::FORMAT_R16G16B16A16_SNORM,
        VertexFormat::Half2 => vk::FORMAT_R16G16_SFLOAT,
        VertexFormat::Half4 => vk::FORMAT_R16G16B16A16_SFLOAT,
        VertexFormat::Float => vk::FORMAT_R32_SFLOAT,
        VertexFormat::Float2 => vk::FORMAT_R32G32_SFLOAT,
        VertexFormat::Float3 => vk::FORMAT_R32G32B32_SFLOAT,
        VertexFormat::Float4 => vk::FORMAT_R32G32B32A32_SFLOAT,
        VertexFormat::UInt => vk::FORMAT_R32_UINT,
        VertexFormat::UInt2 => vk::FORMAT_R32G32_UINT,
        VertexFormat::UInt3 => vk::FORMAT_R32G32B32_UINT,
        VertexFormat::UInt4 => vk::FORMAT_R32G32B32A32_UINT,
        VertexFormat::Int => vk::FORMAT_R32_SINT,
        VertexFormat::Int2 => vk::FORMAT_R32G32_SINT,
        VertexFormat::Int3 => vk::FORMAT_R32G32B32_SINT,
        VertexFormat::Int4 => vk::FORMAT_R32G32B32A32_SINT,
    }
}

pub open spec fn spec_input_rate(mode: InputStepMode) -> i32 {
    match mode {
        InputStepMode::Instance => vk::VERTEX_INPUT_RATE_INSTANCE,
        InputStepMode::Vertex => vk::VERTEX_INPUT_RATE_VERTEX,
    }
}

/// Each `InputStepMode` becomes the Vulkan value named for it.
pub proof fn lemma_input_rate_names()
    ensures
        spec_input_rate(InputStepMode::Instance) == vk::VERTEX_INPUT_RATE_INSTANCE,
        spec_input_rate(InputStepMode::Vertex) == vk::VERTEX_INPUT_RATE_VERTEX,
{
}

/// Distinct `InputStepMode` values never become the same Vulkan value.
pub proof fn lemma_input_rate_injective(a: InputStepMode, b: InputStepMode)
    ensures
        spec_input_rate(a) == spec_input_rate(b) ==> a == b,
{
}

pub fn input_rate(mode: InputStepMode) -> (r: i32)
    ensures
        r == spec_input_rate(mode),
{
    match mode {
        InputStepMode::Instance => vk::VERTEX_INPUT_RATE_INSTANCE,
        InputStepMode::Vertex => vk::VERTEX_INPUT_RATE_VERTEX,
    }
}

#[derive(Clone, Copy, Debug, PartialEq, Eq, Structural, Hash)]
pub struct VertexInputAttributeDescription {
    pub location: u32,
    pub binding: u32,
    pub format: i32,
    pub offset: u32,
}

#[derive(Clone, Copy, Debug, PartialEq, Eq, Structural, Hash)]
pub struct VertexInputBindingDescription {
    pub binding: u32,
    pub stride: u32,
    pub input_rate: i32,
}

pub open spec fn spec_attribute(d: VertexAttributeDescriptor) -> VertexInputAttributeDescription {
    VertexInputAttributeDescription {
        location: d.shader_location,
        binding: d.input_slot,
        format: spec_vertex_format(d.format),
        offset: d.offset,
    }
}

pub fn vertex_input_attribute_description(descriptor: &VertexAttributeDescriptor) -> (r: VertexInputAttributeDescription)
    ensures
        r == spec_attribute(*descriptor),
{
    VertexInputAttributeDescription {
        format: vertex_format(descriptor.format),
        binding: descriptor.input_slot,
        offset: descriptor.offset,
        location: descriptor.shader_location,
    }
}

/// The stride is truncated to 32 bits.
pub open spec fn spec_binding_description(d: VertexInputDescriptor) -> VertexInputBindingDescription {
    VertexInputBindingDescription {
        binding: d.input_slot,
        stride: d.stride as u32,
        input_rate: spec_input_rate(d.step_mode),
    }
}

pub fn vertex_input_binding_description(descriptor: &VertexInputDescriptor) -> (r: VertexInputBindingDescription)
    ensures
        r == spec_binding_description(*descriptor),
{
    VertexInputBindingDescription {
        binding: descriptor.input_slot,
        stride: descriptor.stride as u32,
        input_rate: input_rate(descriptor.step_mode),
    }
}

/// An entry point name can be handed to Vulkan as a C string: its UTF-8
/// encoding holds no NUL byte.
pub open spec fn valid_entry_point(name: Seq<char>) -> bool {
    !vstd::utf8::encode_utf8(name).contains(0u8)
}

pub fn entry_point_is_valid(name: &str) -> (r: bool)
    ensures
        r == valid_entry_point(name@),
{
    let bytes = name.as_bytes();
    let mut i: usize = 0;
    while i < bytes.len()
        invariant
            i <= bytes@.len(),
            bytes@ == name.spec_bytes(),
            forall|j: int| 0 <= j < i ==> bytes@[j] != 0u8,
        decreases bytes@.len() - i,
    {
        if bytes[i] == 0 {
            assert(bytes@[i as int] == 0u8);
            return false;
        }
        i = i + 1;
    }
    true
}

/// What a compute pipeline is built from: the layout, the module and the
/// entry point of its one stage.
#[derive(Clone, Copy, Debug, PartialEq, Eq, Structural, Hash)]
pub struct ComputePipelinePlan {
    pub layout: u64,
    pub module: u64,
    pub stage: u32,
}

impl Device {
    /// Checks a compute pipeline descriptor: it fails with a validation error
    /// exactly when the entry point cannot be passed to Vulkan.
    pub fn create_compute_pipeline(&self, descriptor: &ComputePipelineDescriptor) -> (r: Result<ComputePipelinePlan, Error>)
        ensures
            r is Ok <==> valid_entry_point(descriptor.compute_stage.entry_point@),
            r matches Ok(plan) ==> plan == (ComputePipelinePlan {
                layout: descriptor.layout.handle,
                module: descriptor.compute_stage.module.handle,
                stage: vk::SHADER_STAGE_COMPUTE,
            }),
            r matches Err(e) ==> e.kind == ErrorKind::Code(vk::RESULT_ERROR_VALIDATION_FAILED_EXT),
    {
        if !entry_point_is_valid(descriptor.compute_stage.entry_point.as_str()) {
            return Err(Error::validation_failed());
        }
        Ok(ComputePipelinePlan {
            layout: descriptor.layout.handle,
            module: descriptor.compute_stage.module.handle,
            stage: vk::SHADER_STAGE_COMPUTE,
        })
    }
}

/// Describes a render pipeline.
#[derive(Clone, Debug)]
pub struct RenderPipelineDescriptor {
    pub layout: PipelineLayout,
    pub vertex_stage: PipelineStageDescriptor,
    pub fragment_stage: PipelineStageDescriptor,
    pub primitive_topology: PrimitiveTopology,
    pub rasterization_state: RasterizationStateDescriptor,
    pub color_states: Vec<ColorStateDescriptor>,
    pub depth_stencil_state: Option<DepthStencilStateDescriptor>,
    pub input_state: InputStateDescriptor,
    pub sample_count: u32,
}

/// The fixed-function state of a render pipeline, as Vulkan values, and the
/// render pass it must be compatible with. Primitive restart is always on;
/// viewport, scissor, line width, depth bias, blend constants, depth bounds
/// and stencil reference are dynamic.
#[derive(Clone, Debug)]
pub struct RenderPipelinePlan {
    pub layout: u64,
    pub vertex_module: u64,
    pub fragment_module: u64,
    pub topology: i32,
    pub primitive_restart_enable: bool,
    pub samples: u32,
    pub depth_stencil: DepthStencilStateInfo,
    pub rasterization: RasterizationStateInfo,
    pub color_blend_attachments: Vec<ColorBlendAttachmentState>,
    pub vertex_attributes: Vec<VertexInputAttributeDescription>,
    pub vertex_bindings: Vec<VertexInputBindingDescription>,
    pub render_pass_query: RenderPassCacheQuery,
}

/// The color target a pipeline expects: loaded, without resolve target.
pub open spec fn pipeline_color_info(c: ColorStateDescriptor) -> ColorInfo {
    ColorInfo { format: c.format, load_op: LoadOp::Load, has_resolve_target: false }
}

/// The depth stencil target a pipeline expects, both aspects loaded.
pub open spec fn pipeline_depth_stencil_info(d: DepthStencilStateDescriptor) -> DepthStencilInfo {
    DepthStencilInfo { format: d.format, depth_load_op: LoadOp::Load, stencil_load_op: LoadOp::Load }
}

/// The depth stencil state in use: the given one, or one that disables both tests.
pub open spec fn effective_depth_stencil(d: Option<DepthStencilStateDescriptor>) -> DepthStencilStateDescriptor {
    match d {
        Some(s) => s,
        None => DepthStencilStateDescriptor {
            format: TextureFormat::D32FloatS8Uint,
            depth_write_enabled: false,
            depth_compare: CompareFunction::Always,
            stencil_front: StencilStateFaceDescriptor {
                compare: CompareFunction::Always,
                depth_fail_op: StencilOperation::Keep,
                fail_op: StencilOperation::Keep,
                pass_op: StencilOperation::Keep,
            },
            stencil_back: StencilStateFaceDescriptor {
                compare: CompareFunction::Always,
                depth_fail_op: StencilOperation::Keep,
                fail_op: StencilOperation::Keep,
                pass_op: StencilOperation::Keep,
            },
            stencil_read_mask: 0,
            stencil_write_mask: 0,
        },
    }
}

/// The render pass query a pipeline with these targets is compatible with.
pub open spec fn spec_pipeline_query(d: RenderPipelineDescriptor) -> (Seq<ColorInfo>, Option<DepthStencilInfo>, u32) {
    (
        d.color_states@.map_values(|c: ColorStateDescriptor| pipeline_color_info(c)),
        match d.depth_stencil_state {
            Some(s) => Some(pipeline_depth_stencil_info(s)),
            None => None,
        },
        d.sample_count,
    )
}

/// A render pipeline descriptor is accepted when both entry points can be
/// passed to Vulkan and its sample count is one Vulkan knows.
pub open spec fn render_pipeline_accepted(d: RenderPipelineDescriptor) -> bool {
    valid_entry_point(d.vertex_stage.entry_point@) && valid_entry_point(d.fragment_stage.entry_point@)
        && valid_sample_count(d.sample_count)
}

/// The state a render pipeline is built with, in full.
pub open spec fn render_pipeline_plan_matches(d: RenderPipelineDescriptor, p: RenderPipelinePlan) -> bool {
    &&& p.layout == d.layout.handle
    &&& p.vertex_module == d.vertex_stage.module.handle
    &&& p.fragment_module == d.fragment_stage.module.handle
    &&& p.topology == spec_primitive_topology(d.primitive_topology)
    &&& p.primitive_restart_enable
    &&& p.samples == d.sample_count
    &&& p.depth_stencil == spec_depth_stencil_state(effective_depth_stencil(d.depth_stencil_state))
    &&& p.rasterization == spec_rasterization_state(d.rasterization_state)
    &&& p.color_blend_attachments@ == d.color_states@.map_values(|c: ColorStateDescriptor| spec_color_blend(c))
    &&& p.vertex_attributes@ == d.input_state.attributes@.map_values(
        |a: VertexAttributeDescriptor| spec_attribute(a),
    )
    &&& p.vertex_bindings@ == d.input_state.inputs@.map_values(
        |i: VertexInputDescriptor| spec_binding_description(i),
    )
    &&& (p.render_pass_query.colors(), p.render_pass_query.depth_stencil, p.render_pass_query.sample_count)
        == spec_pipeline_query(d)
}

fn color_blend_attachment_states(color_states: &Vec<ColorStateDescriptor>) -> (r: Vec<ColorBlendAttachmentState>)
    ensures
        r@ == color_states@.map_values(|c: ColorStateDescriptor| spec_color_blend(c)),
{
    let mut r: Vec<ColorBlendAttachmentState> = Vec::new();
    let mut i: usize = 0;
    while i < color_states.len()
        invariant
            i <= color_states@.len(),
            r@ == color_states@.take(i as int).map_values(|c: ColorStateDescriptor| spec_color_blend(c)),
        decreases color_states@.len() - i,
    {
        r.push(color_blend_attachment_state(&color_states[i]));
        assert(color_states@.take(i + 1) == color_states@.take(i as int).push(color_states@[i as int]));
        i = i + 1;
    }
    assert(color_states@.take(i as int) == color_states@);
    r
}

fn vertex_attribute_descriptions(attributes: &Vec<VertexAttributeDescriptor>) -> (r: Vec<VertexInputAttributeDescription>)
    ensures
        r@ == attributes@.map_values(|a: VertexAttributeDescriptor| spec_attribute(a)),
{
    let mut r: Vec<VertexInputAttributeDescription> = Vec::new();
    let mut i: usize = 0;
    while i < attributes.len()
        invariant
            i <= attributes@.len(),
            r@ == attributes@.take(i as int).map_values(|a: VertexAttributeDescriptor| spec_attribute(a)),
        decreases attributes@.len() - i,
    {
        r.push(vertex_input_attribute_description(&attributes[i]));
        assert(attributes@.take(i + 1) == attributes@.take(i as int).push(attributes@[i as int]));
        i = i + 1;
    }
    assert(attributes@.take(i as int) == attributes@);
    r
}

fn vertex_binding_descriptions(inputs: &Vec<VertexInputDescriptor>) -> (r: Vec<VertexInputBindingDescription>)
    ensures
        r@ == inputs@.map_values(|d: VertexInputDescriptor| spec_binding_description(d)),
{
    let mut r: Vec<VertexInputBindingDescription> = Vec::new();
    let mut i: usize = 0;
    while i < inputs.len()
        invariant
            i <= inputs@.len(),
            r@ == inputs@.take(i as int).map_values(|d: VertexInputDescriptor| spec_binding_description(d)),
        decreases inputs@.len() - i,
    {
        r.push(vertex_input_binding_description(&inputs[i]));
        assert(inputs@.take(i + 1) == inputs@.take(i as int).push(inputs@[i as int]));
        i = i + 1;
    }
    assert(inputs@.take(i as int) == inputs@);
    r
}

/// The render pass query of a pipeline: each color target loaded without a
/// resolve target, the depth stencil target loaded, and the sample count.
fn pipeline_render_pass_query(descriptor: &RenderPipelineDescriptor) -> (r: RenderPassCacheQuery)
    ensures
        (r.colors(), r.depth_stencil, r.sample_count) == spec_pipeline_query(*descriptor),
{
    let mut query = RenderPassCacheQuery::new();
    query.set_sample_count(descriptor.sample_count);
    let mut i: usize = 0;
    while i < descriptor.color_states.len()
        invariant
            i <= descriptor.color_states@.len(),
            query.colors() == descriptor.color_states@.take(i as int).map_values(
                |c: ColorStateDescriptor| pipeline_color_info(c),
            ),
            query.depth_stencil.is_none(),
            query.sample_count == descriptor.sample_count,
        decreases descriptor.color_states@.len() - i,
    {
        let c = descriptor.color_states[i];
        query.add_color(ColorInfo { load_op: LoadOp::Load, format: c.format, has_resolve_target: false });
        assert(descriptor.color_states@.take(i + 1) == descriptor.color_states@.take(i as int).push(
            descriptor.color_states@[i as int],
        ));
        i = i + 1;
    }
    assert(descriptor.color_states@.take(i as int) == descriptor.color_states@);
    if let Some(depth_stencil_state) = &descriptor.depth_stencil_state {
        query.set_depth_stencil(
            DepthStencilInfo {
                format: depth_stencil_state.format,
                depth_load_op: LoadOp::Load,
                stencil_load_op: LoadOp::Load,
            },
        );
    }
    query
}

impl Device {
    /// Works out the state of a render pipeline. It fails with a validation error
    /// exactly when an entry point cannot be passed to Vulkan or the sample count
    /// is not one Vulkan knows.
    pub fn create_render_pipeline(&self, descriptor: &RenderPipelineDescriptor) -> (r: Result<RenderPipelinePlan, Error>)
        ensures
            r is Ok <==> render_pipeline_accepted(*descriptor),
            r matches Ok(plan) ==> render_pipeline_plan_matches(*descriptor, plan),
            r matches Err(e) ==> e.kind == ErrorKind::Code(vk::RESULT_ERROR_VALIDATION_FAILED_EXT),
    {
        if !entry_point_is_valid(descriptor.vertex_stage.entry_point.as_str()) {
            return Err(Error::validation_failed());
        }
        if !entry_point_is_valid(descriptor.fragment_stage.entry_point.as_str()) {
            return Err(Error::validation_failed());
        }
        let samples = match sample_count(descriptor.sample_count) {
            Ok(s) => s,
            Err(e) => {
                return Err(e);
            },
        };
        let depth_stencil_descriptor = match descriptor.depth_stencil_state {
            Some(s) => s,
            None => disable_depth_stencil_test(),
        };
        Ok(RenderPipelinePlan {
            layout: descriptor.layout.handle,
            vertex_module: descriptor.vertex_stage.module.handle,
            fragment_module: descriptor.fragment_stage.module.handle,
            topology: primitive_topology(descriptor.primitive_topology),
            primitive_restart_enable: true,
            samples,
            depth_stencil: depth_stencil_state_create_info(depth_stencil_descriptor),
            rasterization: rasterization_state_create_info(&descriptor.rasterization_state),
            color_blend_attachments: color_blend_attachment_states(&descriptor.color_states),
            vertex_attributes: vertex_attribute_descriptions(&descriptor.input_state.attributes),
            vertex_bindings: vertex_binding_descriptions(&descriptor.input_state.inputs),
            render_pass_query: pipeline_render_pass_query(descriptor),
        })
    }
}

/// A pipeline without a depth stencil state runs neither test and writes no
/// depth.
pub proof fn lemma_missing_depth_stencil_state_disables_tests()
    ensures
        !spec_depth_stencil_state(effective_depth_stencil(None)).depth_test_enable,
        !spec_depth_stencil_state(effective_depth_stencil(None)).depth_write_enable,
        !spec_depth_stencil_state(effective_depth_stencil(None)).stencil_test_enable,
        !spec_depth_stencil_state(effective_depth_stencil(None)).depth_bounds_test_enable,
{
}

impl Device {
    /// The descriptor set layouts a pipeline layout is created from: those of its
    /// bind group layouts, in order.
    pub fn create_pipeline_layout(&self, descriptor: &PipelineLayoutDescriptor) -> (r: Vec<u64>)
        ensures
            r@ == descriptor.bind_group_layouts@.map_values(|l: BindGroupLayout| l.handle),
    {
        let mut r: Vec<u64> = Vec::new();
        let mut i: usize = 0;
        while i < descriptor.bind_group_layouts.len()
            invariant
                i <= descriptor.bind_group_layouts@.len(),
                r@ == descriptor.bind_group_layouts@.take(i as int).map_values(|l: BindGroupLayout| l.handle),
            decreases descriptor.bind_group_layouts@.len() - i,
        {
            r.push(descriptor.bind_group_layouts[i].handle);
            assert(descriptor.bind_group_layouts@.take(i + 1) == descriptor.bind_group_layouts@.take(i as int).push(
                descriptor.bind_group_layouts@[i as int],
            ));
            i = i + 1;
        }
        assert(descriptor.bind_group_layouts@.take(i as int) == descriptor.bind_group_layouts@);
        r
    }
}

} // verus!
