use vstd::prelude::*;

use crate::resources::Device;
use crate::types::{AddressMode, CompareFunction, FilterMode};
use crate::vk;

verus! {

pub open spec fn spec_address_mode(mode: AddressMode) -> i32 {
    match mode {
        AddressMode::ClampToEdge => vk::SAMPLER_ADDRESS_MODE_CLAMP_TO_EDGE,
        AddressMode::MirrorRepeat => vk::SAMPLER_ADDRESS_MODE_MIRRORED_REPEAT,
        AddressMode::Repeat => vk::SAMPLER_ADDRESS_MODE_REPEAT,
    }
}

/// Each `AddressMode` becomes the Vulkan value named for it.
pub proof fn lemma_address_mode_names()
    ensures
        spec_address_mode(AddressMode::ClampToEdge) == vk::SAMPLER_ADDRESS_MODE_CLAMP_TO_EDGE,
        spec_address_mode(AddressMode::MirrorRepeat) == vk::SAMPLER_ADDRESS_MODE_MIRRORED_REPEAT,
        spec_address_mode(AddressMode::Repeat) == vk::SAMPLER_ADDRESS_MODE_REPEAT,
{
}

/// Distinct `AddressMode` values never become the same Vulkan value.
pub proof fn lemma_address_mode_injective(a: AddressMode, b: AddressMode)
    ensures
        spec_address_mode(a) == spec_address_mode(b) ==> a == b,
{
}

pub fn address_mode(mode: AddressMode) -> (r: i32)
    ensures
        r == spec_address_mode(mode),
{
    match mode {
        AddressMode::ClampToEdge => vk::SAMPLER_ADDRESS_MODE_CLAMP_TO_EDGE,
        AddressMode::MirrorRepeat => vk::SAMPLER_ADDRESS_MODE_MIRRORED_REPEAT,
        AddressMode::Repeat => vk::SAMPLER_ADDRESS_MODE_REPEAT,
    }
}

pub open spec fn spec_filter_mode(mode: FilterMode) -> i32 {
    match mode {
        FilterMode::Nearest => vk::FILTER_NEAREST,
        FilterMode::Linear => vk::FILTER_LINEAR,
    }
}

/// Each `FilterMode` becomes the Vulkan value named for it.
pub proof fn lemma_filter_mode_names()
    ensures
        spec_filter_mode(FilterMode::Nearest) == vk::FILTER_NEAREST,
        spec_filter_mode(FilterMode::Linear) == vk::FILTER_LINEAR,
{
}

/// Distinct `FilterMode` values never become the same Vulkan value.
pub proof fn lemma_filter_mode_injective(a: FilterMode, b: FilterMode)
    ensures
        spec_filter_mode(a) == spec_filter_mode(b) ==> a == b,
{
}

pub fn filter_mode(mode: FilterMode) -> (r: i32)
    ensures
        r == spec_filter_mode(mode),
{
    match mode {
        FilterMode::Nearest => vk::FILTER_NEAREST,
        FilterMode::Linear => vk::FILTER_LINEAR,
    }
}

pub open spec fn spec_mipmap_mode(mode: FilterMode) -> i32 {
    match mode {
        FilterMode::Linear => vk::SAMPLER_MIPMAP_MODE_LINEAR,
        FilterMode::Nearest => vk::SAMPLER_MIPMAP_MODE_NEAREST,
    }
}

/// Each `FilterMode` becomes the Vulkan value named for it.
pub proof fn lemma_mipmap_mode_names()
    ensures
        spec_mipmap_mode(FilterMode::Linear) == vk::SAMPLER_MIPMAP_MODE_LINEAR,
        spec_mipmap_mode(FilterMode::Nearest) == vk::SAMPLER_MIPMAP_MODE_NEAREST,
{
}

/// Distinct `FilterMode` values never become the same Vulkan value.
pub proof fn lemma_mipmap_mode_injective(a: FilterMode, b: FilterMode)
    ensures
        spec_mipmap_mode(a) == spec_mipmap_mode(b) ==> a == b,
{
}

pub fn mipmap_mode(mode: FilterMode) -> (r: i32)
    ensures
        r == spec_mipmap_mode(mode),
{
    match mode {
        FilterMode::Linear => vk::SAMPLER_MIPMAP_MODE_LINEAR,
        FilterMode::Nearest => vk::SAMPLER_MIPMAP_MODE_NEAREST,
    }
}

pub open spec fn spec_compare_op(func: CompareFunction) -> i32 {
    match func {
        CompareFunction::Less => vk::COMPARE_OP_LESS,
        CompareFunction::LessEqual => vk::COMPARE_OP_LESS_OR_EQUAL,
        CompareFunction::Never => vk::COMPARE_OP_NEVER,
        CompareFunction::Always => vk::COMPARE_OP_ALWAYS,
        CompareFunction::Greater => vk::COMPARE_OP_GREATER,
        CompareFunction::GreaterEqual => vk::COMPARE_OP_GREATER_OR_EQUAL,
        CompareFunction::Equal => vk::COMPARE_OP_EQUAL,
        CompareFunction::NotEqual => vk::COMPARE_OP_NOT_EQUAL,
    }
}

/// Each `CompareFunction` becomes the Vulkan value named for it.
pub proof fn lemma_compare_op_names()
    ensures
        spec_compare_op(CompareFunction::Less) == vk::COMPARE_OP_LESS,
        spec_compare_op(CompareFunction::LessEqual) == vk::COMPARE_OP_LESS_OR_EQUAL,
        spec_compare_op(CompareFunction::Never) == vk::COMPARE_OP_NEVER,
        spec_compare_op(CompareFunction::Always) == vk::COMPARE_OP_ALWAYS,
        spec_compare_op(CompareFunction::Greater) == vk::COMPARE_OP_GREATER,
        spec_compare_op(CompareFunction::GreaterEqual) == vk::COMPARE_OP_GREATER_OR_EQUAL,
        spec_compare_op(CompareFunction::Equal) == vk::COMPARE_OP_EQUAL,
        spec_compare_op(CompareFunction::NotEqual) == vk::COMPARE_OP_NOT_EQUAL,
{
}

/// Distinct `CompareFunction` values never become the same Vulkan value.
pub proof fn lemma_compare_op_injective(a: CompareFunction, b: CompareFunction)
    ensures
        spec_compare_op(a) == spec_compare_op(b) ==> a == b,
{
}

pub fn compare_op(func: CompareFunction) -> (r: i32)
    ensures
        r == spec_compare_op(func),
{
    match func {
        CompareFunction::Less => vk::COMPARE_OP_LESS,
        CompareFunction::LessEqual => vk::COMPARE_OP_LESS_OR_EQUAL,
        CompareFunction::Never => vk::COMPARE_OP_NEVER,
        CompareFunction::Always => vk::COMPARE_OP_ALWAYS,
        CompareFunction::Greater => vk::COMPARE_OP_GREATER,
        CompareFunction::GreaterEqual => vk::COMPARE_OP_GREATER_OR_EQUAL,
        CompareFunction::Equal => vk::COMPARE_OP_EQUAL,
        CompareFunction::NotEqual => vk::COMPARE_OP_NOT_EQUAL,
    }
}

/// The sampler compares only when its compare function is not `Never`.
pub fn compare_enable(func: CompareFunction) -> (r: bool)
    ensures
        r == (func != CompareFunction::Never),
{
    !matches!(func, CompareFunction::Never)
}

/// The integer part of a sampler descriptor: its address modes, filters and
/// comparison. The level of detail clamps are floating point and stay with
/// the caller.
#[derive(Clone, Copy, Debug, PartialEq, Eq, Structural, Hash)]
pub struct SamplerModes {
    pub address_mode_u: AddressMode,
    pub address_mode_v: AddressMode,
    pub address_mode_w: AddressMode,
    pub mag_filter: FilterMode,
    pub min_filter: FilterMode,
    pub mipmap_filter: FilterMode,
    pub compare_function: CompareFunction,
}

/// How a sampler is created, apart from its level of detail clamps: no
/// anisotropy, no level of detail bias, a transparent black border,
/// normalized coordinates.
#[derive(Clone, Copy, Debug, PartialEq, Eq, Structural, Hash)]
pub struct SamplerPlan {
    pub address_mode_u: i32,
    pub address_mode_v: i32,
    pub address_mode_w: i32,
    pub mag_filter: i32,
    pub min_filter: i32,
    pub mipmap_mode: i32,
    pub compare_op: i32,
    pub compare_enable: bool,
}

impl Device {
    pub fn create_sampler(&self, modes: &SamplerModes) -> (r: SamplerPlan)
        ensures
            r == (SamplerPlan {
                address_mode_u: spec_address_mode(modes.address_mode_u),
                address_mode_v: spec_address_mode(modes.address_mode_v),
                address_mode_w: spec_address_mode(modes.address_mode_w),
                mag_filter: spec_filter_mode(modes.mag_filter),
                min_filter: spec_filter_mode(modes.min_filter),
                mipmap_mode: spec_mipmap_mode(modes.mipmap_filter),
                compare_op: spec_compare_op(modes.compare_function),
                compare_enable: modes.compare_function != CompareFunction::Never,
            }),
    {
        SamplerPlan {
            address_mode_u: address_mode(modes.address_mode_u),
            address_mode_v: address_mode(modes.address_mode_v),
            address_mode_w: address_mode(modes.address_mode_w),
            mag_filter: filter_mode(modes.mag_filter),
            min_filter: filter_mode(modes.min_filter),
            mipmap_mode: mipmap_mode(modes.mipmap_filter),
            compare_op: compare_op(modes.compare_function),
            compare_enable: compare_enable(modes.compare_function),
        }
    }
}

} // verus!
