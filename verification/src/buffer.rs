use vstd::prelude::*;

use core::marker::PhantomData;

use crate::error::Error;
use crate::flags::{
    BufferUsageFlags, BUFFER_USAGE_INDEX, BUFFER_USAGE_INDIRECT, BUFFER_USAGE_MAP_READ,
    BUFFER_USAGE_MAP_WRITE, BUFFER_USAGE_NONE, BUFFER_USAGE_STORAGE, BUFFER_USAGE_TRANSFER_DST,
    BUFFER_USAGE_TRANSFER_SRC, BUFFER_USAGE_UNIFORM, BUFFER_USAGE_VERTEX,
};
use crate::resources::{Buffer, BufferView, Device};
use crate::texture::{bit_if, pick};
use crate::types::BufferDescriptor;
use crate::vk;

verus! {

/// Where the memory of a resource should live.
#[derive(Clone, Copy, Debug, PartialEq, Eq, Structural, Hash)]
pub enum MemoryUsage {
    Unknown,
    GpuOnly,
    CpuOnly,
    CpuToGpu,
    GpuToCpu,
}

/// Whether a buffer's memory is mapped for host access.
#[derive(Clone, Copy, Debug, PartialEq, Eq, Structural, Hash)]
pub enum BufferState {
    Mapped,
    Unmapped,
    Destroyed,
}

pub open spec fn read_only_bits() -> u32 {
    BUFFER_USAGE_MAP_READ | BUFFER_USAGE_TRANSFER_SRC | BUFFER_USAGE_INDEX | BUFFER_USAGE_VERTEX
        | BUFFER_USAGE_UNIFORM
}

/// Usages that only read a buffer.
pub fn read_only_buffer_usages() -> (r: BufferUsageFlags)
    ensures
        r.bits == read_only_bits(),
{
    BufferUsageFlags {
        bits: BUFFER_USAGE_MAP_READ | BUFFER_USAGE_TRANSFER_SRC | BUFFER_USAGE_INDEX
            | BUFFER_USAGE_VERTEX | BUFFER_USAGE_UNIFORM,
    }
}

/// Usages that may write a buffer.
pub fn writable_buffer_usages() -> (r: BufferUsageFlags)
    ensures
        r.bits == BUFFER_USAGE_MAP_WRITE | BUFFER_USAGE_TRANSFER_DST | BUFFER_USAGE_STORAGE,
{
    BufferUsageFlags { bits: BUFFER_USAGE_MAP_WRITE | BUFFER_USAGE_TRANSFER_DST | BUFFER_USAGE_STORAGE }
}

pub open spec fn has_all(bits: u32, wanted: u32) -> bool {
    bits & wanted == wanted
}

pub open spec fn spec_memory_usage(usage: BufferUsageFlags) -> MemoryUsage {
    if has_all(usage.bits, BUFFER_USAGE_MAP_WRITE | BUFFER_USAGE_TRANSFER_SRC) {
        MemoryUsage::CpuOnly
    } else if has_all(usage.bits, BUFFER_USAGE_MAP_READ | BUFFER_USAGE_TRANSFER_DST) {
        MemoryUsage::CpuOnly
    } else if has_all(usage.bits, BUFFER_USAGE_MAP_WRITE) {
        MemoryUsage::CpuToGpu
    } else if has_all(usage.bits, BUFFER_USAGE_MAP_READ) {
        MemoryUsage::GpuToCpu
    } else {
        MemoryUsage::GpuOnly
    }
}

/// Memory placement by how the host reaches a buffer: a buffer the host never
/// maps lives on the device only, and every mapped buffer lives where the
/// host can reach it. A staging buffer (mapped for writing and copied from, or
/// mapped for reading and copied to) lives on the host; any other buffer the
/// host writes is host-visible memory the device reads, and one the host only
/// reads is device memory the host reads back.
pub proof fn lemma_memory_usage_placement(usage: BufferUsageFlags)
    ensures
        usage.bits & (BUFFER_USAGE_MAP_READ | BUFFER_USAGE_MAP_WRITE) == 0 <==> spec_memory_usage(usage)
            == MemoryUsage::GpuOnly,
        usage.bits & BUFFER_USAGE_MAP_WRITE != 0 && usage.bits & BUFFER_USAGE_TRANSFER_SRC != 0 ==> spec_memory_usage(
            usage,
        ) == MemoryUsage::CpuOnly,
        usage.bits & BUFFER_USAGE_MAP_READ != 0 && usage.bits & BUFFER_USAGE_TRANSFER_DST != 0 ==> spec_memory_usage(
            usage,
        ) == MemoryUsage::CpuOnly,
        usage.bits & BUFFER_USAGE_MAP_WRITE != 0 && usage.bits & BUFFER_USAGE_TRANSFER_SRC == 0 && !(usage.bits
            & BUFFER_USAGE_MAP_READ != 0 && usage.bits & BUFFER_USAGE_TRANSFER_DST != 0) ==> spec_memory_usage(usage)
            == MemoryUsage::CpuToGpu,
        usage.bits & BUFFER_USAGE_MAP_READ != 0 && usage.bits & BUFFER_USAGE_MAP_WRITE == 0 && usage.bits
            & BUFFER_USAGE_TRANSFER_DST == 0 ==> spec_memory_usage(usage) == MemoryUsage::GpuToCpu,
{
    let u = usage.bits;
    assert({
        &&& (u & (2u32 | 4u32) == (2u32 | 4u32) <==> (u & 2u32 != 0 && u & 4u32 != 0))
        &&& (u & (1u32 | 8u32) == (1u32 | 8u32) <==> (u & 1u32 != 0 && u & 8u32 != 0))
        &&& (u & 2u32 == 2u32 <==> u & 2u32 != 0)
        &&& (u & 1u32 == 1u32 <==> u & 1u32 != 0)
        &&& (u & (1u32 | 2u32) == 0 <==> (u & 1u32 == 0 && u & 2u32 == 0))
    }) by (bit_vector);
}

/// Where a buffer's memory should live: staging buffers on the host, buffers
/// the host writes (reads) often in host-visible memory written (read) by the
/// host, everything else on the device.
pub fn memory_usage(usage: BufferUsageFlags) -> (r: MemoryUsage)
    requires
        usage.bits != BUFFER_USAGE_NONE,
    ensures
        r == spec_memory_usage(usage),
{
    let u = usage.bits;
    if u & (BUFFER_USAGE_MAP_WRITE | BUFFER_USAGE_TRANSFER_SRC) == (BUFFER_USAGE_MAP_WRITE
        | BUFFER_USAGE_TRANSFER_SRC) {
        return MemoryUsage::CpuOnly;
    }
    if u & (BUFFER_USAGE_MAP_READ | BUFFER_USAGE_TRANSFER_DST) == (BUFFER_USAGE_MAP_READ
        | BUFFER_USAGE_TRANSFER_DST) {
        return MemoryUsage::CpuOnly;
    }
    if u & BUFFER_USAGE_MAP_WRITE == BUFFER_USAGE_MAP_WRITE {
        return MemoryUsage::CpuToGpu;
    }
    if u & BUFFER_USAGE_MAP_READ == BUFFER_USAGE_MAP_READ {
        return MemoryUsage::GpuToCpu;
    }
    MemoryUsage::GpuOnly
}

pub open spec fn spec_usage_flags(usage: BufferUsageFlags) -> u32 {
    bit_if(usage.bits & BUFFER_USAGE_TRANSFER_SRC != 0, vk::BUFFER_USAGE_TRANSFER_SRC) | bit_if(
        usage.bits & BUFFER_USAGE_TRANSFER_DST != 0,
        vk::BUFFER_USAGE_TRANSFER_DST,
    ) | bit_if(usage.bits & BUFFER_USAGE_INDEX != 0, vk::BUFFER_USAGE_INDEX_BUFFER) | bit_if(
        usage.bits & BUFFER_USAGE_VERTEX != 0,
        vk::BUFFER_USAGE_VERTEX_BUFFER,
    ) | bit_if(usage.bits & BUFFER_USAGE_UNIFORM != 0, vk::BUFFER_USAGE_UNIFORM_BUFFER) | bit_if(
        usage.bits & BUFFER_USAGE_STORAGE != 0,
        vk::BUFFER_USAGE_STORAGE_BUFFER | vk::BUFFER_USAGE_STORAGE_TEXEL_BUFFER,
    ) | bit_if(usage.bits & BUFFER_USAGE_INDIRECT != 0, vk::BUFFER_USAGE_INDIRECT_BUFFER)
}

/// The Vulkan buffer usage bits of a buffer usage. Storage buffers may also be
/// used as storage texel buffers.
pub fn usage_flags(usage: BufferUsageFlags) -> (r: u32)
    ensures
        r == spec_usage_flags(usage),
{
    pick(usage.bits & BUFFER_USAGE_TRANSFER_SRC != 0, vk::BUFFER_USAGE_TRANSFER_SRC) | pick(
        usage.bits & BUFFER_USAGE_TRANSFER_DST != 0,
        vk::BUFFER_USAGE_TRANSFER_DST,
    ) | pick(usage.bits & BUFFER_USAGE_INDEX != 0, vk::BUFFER_USAGE_INDEX_BUFFER) | pick(
        usage.bits & BUFFER_USAGE_VERTEX != 0,
        vk::BUFFER_USAGE_VERTEX_BUFFER,
    ) | pick(usage.bits & BUFFER_USAGE_UNIFORM != 0, vk::BUFFER_USAGE_UNIFORM_BUFFER) | pick(
        usage.bits & BUFFER_USAGE_STORAGE != 0,
        vk::BUFFER_USAGE_STORAGE_BUFFER | vk::BUFFER_USAGE_STORAGE_TEXEL_BUFFER,
    ) | pick(usage.bits & BUFFER_USAGE_INDIRECT != 0, vk::BUFFER_USAGE_INDIRECT_BUFFER)
}

/// Each buffer usage sets the Vulkan usage bit of the same name, and only
/// when the buffer has that usage: copying from it needs transfer-source,
/// copying to it transfer-destination, an index buffer the index-buffer bit,
/// a vertex buffer the vertex-buffer bit, a uniform buffer the uniform-buffer
/// bit, a storage buffer both the storage-buffer and storage-texel-buffer
/// bits, and an indirect buffer the indirect-buffer bit. No other bit is ever
/// set; mapping needs none.
pub proof fn lemma_usage_flags_bits(usage: BufferUsageFlags)
    ensures
        spec_usage_flags(usage) & vk::BUFFER_USAGE_TRANSFER_SRC != 0 <==> usage.bits & BUFFER_USAGE_TRANSFER_SRC != 0,
        spec_usage_flags(usage) & vk::BUFFER_USAGE_TRANSFER_DST != 0 <==> usage.bits & BUFFER_USAGE_TRANSFER_DST != 0,
        spec_usage_flags(usage) & vk::BUFFER_USAGE_INDEX_BUFFER != 0 <==> usage.bits & BUFFER_USAGE_INDEX != 0,
        spec_usage_flags(usage) & vk::BUFFER_USAGE_VERTEX_BUFFER != 0 <==> usage.bits & BUFFER_USAGE_VERTEX != 0,
        spec_usage_flags(usage) & vk::BUFFER_USAGE_UNIFORM_BUFFER != 0 <==> usage.bits & BUFFER_USAGE_UNIFORM != 0,
        spec_usage_flags(usage) & vk::BUFFER_USAGE_STORAGE_BUFFER != 0 <==> usage.bits & BUFFER_USAGE_STORAGE != 0,
        spec_usage_flags(usage) & vk::BUFFER_USAGE_STORAGE_TEXEL_BUFFER != 0 <==> usage.bits & BUFFER_USAGE_STORAGE != 0,
        spec_usage_flags(usage) & vk::BUFFER_USAGE_INDIRECT_BUFFER != 0 <==> usage.bits & BUFFER_USAGE_INDIRECT != 0,
        spec_usage_flags(usage) & !(vk::BUFFER_USAGE_TRANSFER_SRC | vk::BUFFER_USAGE_TRANSFER_DST
            | vk::BUFFER_USAGE_INDEX_BUFFER | vk::BUFFER_USAGE_VERTEX_BUFFER | vk::BUFFER_USAGE_UNIFORM_BUFFER
            | vk::BUFFER_USAGE_STORAGE_BUFFER | vk::BUFFER_USAGE_STORAGE_TEXEL_BUFFER
            | vk::BUFFER_USAGE_INDIRECT_BUFFER) == 0,
{
    let u = usage.bits;
    let r = spec_usage_flags(usage);
    assert(0x20u32 | 0x8u32 == 0x28u32) by (bit_vector);
    assert(0x1u32 | 0x2u32 | 0x40u32 | 0x80u32 | 0x10u32 | 0x20u32 | 0x8u32 | 0x100u32 == 0x1fbu32) by (bit_vector);
    assert(r == ((if u & 4u32 != 0 { 0x1u32 } else { 0u32 }) | (if u & 8u32 != 0 { 0x2u32 } else { 0u32 }) | (if u
        & 16u32 != 0 { 0x40u32 } else { 0u32 }) | (if u & 32u32 != 0 { 0x80u32 } else { 0u32 }) | (if u & 64u32
        != 0 { 0x10u32 } else { 0u32 }) | (if u & 128u32 != 0 { 0x28u32 } else { 0u32 }) | (if u & 256u32 != 0 {
        0x100u32
    } else { 0u32 })));
    assert({
        &&& (r & 0x1u32 != 0 <==> u & 4u32 != 0)
        &&& (r & 0x2u32 != 0 <==> u & 8u32 != 0)
        &&& (r & 0x40u32 != 0 <==> u & 16u32 != 0)
        &&& (r & 0x80u32 != 0 <==> u & 32u32 != 0)
        &&& (r & 0x10u32 != 0 <==> u & 64u32 != 0)
        &&& (r & 0x20u32 != 0 <==> u & 128u32 != 0)
        &&& (r & 0x8u32 != 0 <==> u & 128u32 != 0)
        &&& (r & 0x100u32 != 0 <==> u & 256u32 != 0)
        &&& r & !0x1fbu32 == 0
    }) by (bit_vector)
        requires
            r == ((if u & 4u32 != 0 { 0x1u32 } else { 0u32 }) | (if u & 8u32 != 0 { 0x2u32 } else { 0u32 }) | (if u
                & 16u32 != 0 { 0x40u32 } else { 0u32 }) | (if u & 32u32 != 0 { 0x80u32 } else { 0u32 }) | (if u
                & 64u32 != 0 { 0x10u32 } else { 0u32 }) | (if u & 128u32 != 0 { 0x28u32 } else { 0u32 }) | (if u
                & 256u32 != 0 { 0x100u32 } else { 0u32 })),
    ;
}

pub open spec fn spec_pipeline_stage(usage: BufferUsageFlags) -> u32 {
    stage_bits(usage.bits)
}

pub open spec fn stage_bits(bits: u32) -> u32 {
    bit_if(
        bits & (BUFFER_USAGE_MAP_READ | BUFFER_USAGE_MAP_WRITE) != 0,
        vk::PIPELINE_STAGE_HOST,
    ) | bit_if(
        bits & (BUFFER_USAGE_TRANSFER_SRC | BUFFER_USAGE_TRANSFER_DST) != 0,
        vk::PIPELINE_STAGE_TRANSFER,
    ) | bit_if(
        bits & (BUFFER_USAGE_INDEX | BUFFER_USAGE_VERTEX) != 0,
        vk::PIPELINE_STAGE_VERTEX_INPUT,
    ) | bit_if(
        bits & (BUFFER_USAGE_UNIFORM | BUFFER_USAGE_STORAGE) != 0,
        vk::PIPELINE_STAGE_VERTEX_SHADER | vk::PIPELINE_STAGE_FRAGMENT_SHADER
            | vk::PIPELINE_STAGE_COMPUTE_SHADER,
    ) | bit_if(bits & BUFFER_USAGE_INDIRECT != 0, vk::PIPELINE_STAGE_DRAW_INDIRECT)
}

/// The stages a buffer usage takes place in: mapping on the host, copies in
/// the transfer stage, index and vertex buffers in vertex input, uniform and
/// storage buffers in the vertex, fragment and compute shader stages, and
/// indirect buffers where indirect draws are read. No other stage is ever
/// named.
pub proof fn lemma_pipeline_stage_bits(usage: BufferUsageFlags)
    ensures
        spec_pipeline_stage(usage) & vk::PIPELINE_STAGE_HOST != 0 <==> usage.bits & (BUFFER_USAGE_MAP_READ
            | BUFFER_USAGE_MAP_WRITE) != 0,
        spec_pipeline_stage(usage) & vk::PIPELINE_STAGE_TRANSFER != 0 <==> usage.bits & (BUFFER_USAGE_TRANSFER_SRC
            | BUFFER_USAGE_TRANSFER_DST) != 0,
        spec_pipeline_stage(usage) & vk::PIPELINE_STAGE_VERTEX_INPUT != 0 <==> usage.bits & (BUFFER_USAGE_INDEX
            | BUFFER_USAGE_VERTEX) != 0,
        spec_pipeline_stage(usage) & vk::PIPELINE_STAGE_VERTEX_SHADER != 0 <==> usage.bits & (BUFFER_USAGE_UNIFORM
            | BUFFER_USAGE_STORAGE) != 0,
        spec_pipeline_stage(usage) & vk::PIPELINE_STAGE_FRAGMENT_SHADER != 0 <==> usage.bits & (BUFFER_USAGE_UNIFORM
            | BUFFER_USAGE_STORAGE) != 0,
        spec_pipeline_stage(usage) & vk::PIPELINE_STAGE_COMPUTE_SHADER != 0 <==> usage.bits & (BUFFER_USAGE_UNIFORM
            | BUFFER_USAGE_STORAGE) != 0,
        spec_pipeline_stage(usage) & vk::PIPELINE_STAGE_DRAW_INDIRECT != 0 <==> usage.bits & BUFFER_USAGE_INDIRECT != 0,
        spec_pipeline_stage(usage) & !(vk::PIPELINE_STAGE_HOST | vk::PIPELINE_STAGE_TRANSFER
            | vk::PIPELINE_STAGE_VERTEX_INPUT | vk::PIPELINE_STAGE_VERTEX_SHADER | vk::PIPELINE_STAGE_FRAGMENT_SHADER
            | vk::PIPELINE_STAGE_COMPUTE_SHADER | vk::PIPELINE_STAGE_DRAW_INDIRECT) == 0,
{
    let u = usage.bits;
    let r = spec_pipeline_stage(usage);
    assert({
        &&& (0x8u32 | 0x80u32 | 0x800u32 == 0x888u32)
        &&& (1u32 | 2u32 == 3u32)
        &&& (4u32 | 8u32 == 12u32)
        &&& (16u32 | 32u32 == 48u32)
        &&& (64u32 | 128u32 == 192u32)
        &&& (0x4000u32 | 0x1000u32 | 0x4u32 | 0x8u32 | 0x80u32 | 0x800u32 | 0x2u32 == 0x588eu32)
    }) by (bit_vector);
    assert(r == ((if u & 3u32 != 0 { 0x4000u32 } else { 0u32 }) | (if u & 12u32 != 0 { 0x1000u32 } else { 0u32 }) | (if u & 48u32 != 0 { 0x4u32 } else { 0u32 }) | (if u & 192u32 != 0 { 0x888u32 } else { 0u32 }) | (if u & 256u32 != 0 { 0x2u32 } else { 0u32 })));
    assert({
        &&& (r & 0x4000u32 != 0 <==> u & 3u32 != 0)
        &&& (r & 0x1000u32 != 0 <==> u & 12u32 != 0)
        &&& (r & 0x4u32 != 0 <==> u & 48u32 != 0)
        &&& (r & 0x8u32 != 0 <==> u & 192u32 != 0)
        &&& (r & 0x80u32 != 0 <==> u & 192u32 != 0)
        &&& (r & 0x800u32 != 0 <==> u & 192u32 != 0)
        &&& (r & 0x2u32 != 0 <==> u & 256u32 != 0)
        &&& r & !0x588eu32 == 0
    }) by (bit_vector)
        requires
            r == ((if u & 3u32 != 0 { 0x4000u32 } else { 0u32 }) | (if u & 12u32 != 0 { 0x1000u32 } else { 0u32 }) | (if u & 48u32 != 0 { 0x4u32 } else { 0u32 }) | (if u & 192u32 != 0 { 0x888u32 } else { 0u32 }) | (if u & 256u32 != 0 { 0x2u32 } else { 0u32 })),
    ;
}

/// The pipeline stages in which a buffer usage takes place.
pub fn pipeline_stage(usage: BufferUsageFlags) -> (r: u32)
    ensures
        r == spec_pipeline_stage(usage),
{
    pick(
        usage.bits & (BUFFER_USAGE_MAP_READ | BUFFER_USAGE_MAP_WRITE) != 0,
        vk::PIPELINE_STAGE_HOST,
    ) | pick(
        usage.bits & (BUFFER_USAGE_TRANSFER_SRC | BUFFER_USAGE_TRANSFER_DST) != 0,
        vk::PIPELINE_STAGE_TRANSFER,
    ) | pick(
        usage.bits & (BUFFER_USAGE_INDEX | BUFFER_USAGE_VERTEX) != 0,
        vk::PIPELINE_STAGE_VERTEX_INPUT,
    ) | pick(
        usage.bits & (BUFFER_USAGE_UNIFORM | BUFFER_USAGE_STORAGE) != 0,
        vk::PIPELINE_STAGE_VERTEX_SHADER | vk::PIPELINE_STAGE_FRAGMENT_SHADER
            | vk::PIPELINE_STAGE_COMPUTE_SHADER,
    ) | pick(usage.bits & BUFFER_USAGE_INDIRECT != 0, vk::PIPELINE_STAGE_DRAW_INDIRECT)
}

pub open spec fn spec_access_flags(usage: BufferUsageFlags) -> u32 {
    access_bits(usage.bits)
}

pub open spec fn access_bits(bits: u32) -> u32 {
    bit_if(bits & BUFFER_USAGE_MAP_READ != 0, vk::ACCESS_HOST_READ) | bit_if(
        bits & BUFFER_USAGE_MAP_WRITE != 0,
        vk::ACCESS_HOST_WRITE,
    ) | bit_if(bits & BUFFER_USAGE_TRANSFER_SRC != 0, vk::ACCESS_TRANSFER_READ) | bit_if(
        bits & BUFFER_USAGE_TRANSFER_DST != 0,
        vk::ACCESS_TRANSFER_WRITE,
    ) | bit_if(bits & BUFFER_USAGE_INDEX != 0, vk::ACCESS_INDEX_READ) | bit_if(
        bits & BUFFER_USAGE_VERTEX != 0,
        vk::ACCESS_VERTEX_ATTRIBUTE_READ,
    ) | bit_if(bits & BUFFER_USAGE_UNIFORM != 0, vk::ACCESS_UNIFORM_READ) | bit_if(
        bits & BUFFER_USAGE_INDIRECT != 0,
        vk::ACCESS_INDIRECT_COMMAND_READ,
    ) | bit_if(
        bits & BUFFER_USAGE_STORAGE != 0,
        vk::ACCESS_SHADER_READ | vk::ACCESS_SHADER_WRITE,
    )
}

/// Each buffer usage performs the Vulkan accesses it names, and only when the
/// buffer has that usage: mapping for reading reads from the host, mapping for
/// writing writes from the host, copying from and to it are transfer reads and
/// writes, an index, vertex, uniform or indirect buffer is read as one, and a
/// storage buffer is both read and written by shaders. No other access is
/// ever named.
pub proof fn lemma_access_flags_bits(usage: BufferUsageFlags)
    ensures
        spec_access_flags(usage) & vk::ACCESS_HOST_READ != 0 <==> usage.bits & BUFFER_USAGE_MAP_READ != 0,
        spec_access_flags(usage) & vk::ACCESS_HOST_WRITE != 0 <==> usage.bits & BUFFER_USAGE_MAP_WRITE != 0,
        spec_access_flags(usage) & vk::ACCESS_TRANSFER_READ != 0 <==> usage.bits & BUFFER_USAGE_TRANSFER_SRC != 0,
        spec_access_flags(usage) & vk::ACCESS_TRANSFER_WRITE != 0 <==> usage.bits & BUFFER_USAGE_TRANSFER_DST != 0,
        spec_access_flags(usage) & vk::ACCESS_INDEX_READ != 0 <==> usage.bits & BUFFER_USAGE_INDEX != 0,
        spec_access_flags(usage) & vk::ACCESS_VERTEX_ATTRIBUTE_READ != 0 <==> usage.bits & BUFFER_USAGE_VERTEX != 0,
        spec_access_flags(usage) & vk::ACCESS_UNIFORM_READ != 0 <==> usage.bits & BUFFER_USAGE_UNIFORM != 0,
        spec_access_flags(usage) & vk::ACCESS_INDIRECT_COMMAND_READ != 0 <==> usage.bits & BUFFER_USAGE_INDIRECT != 0,
        spec_access_flags(usage) & vk::ACCESS_SHADER_READ != 0 <==> usage.bits & BUFFER_USAGE_STORAGE != 0,
        spec_access_flags(usage) & vk::ACCESS_SHADER_WRITE != 0 <==> usage.bits & BUFFER_USAGE_STORAGE != 0,
        spec_access_flags(usage) & !(vk::ACCESS_HOST_READ | vk::ACCESS_HOST_WRITE | vk::ACCESS_TRANSFER_READ
            | vk::ACCESS_TRANSFER_WRITE | vk::ACCESS_INDEX_READ | vk::ACCESS_VERTEX_ATTRIBUTE_READ
            | vk::ACCESS_UNIFORM_READ | vk::ACCESS_INDIRECT_COMMAND_READ | vk::ACCESS_SHADER_READ
            | vk::ACCESS_SHADER_WRITE) == 0,
{
    let u = usage.bits;
    let r = spec_access_flags(usage);
    assert(0x20u32 | 0x40u32 == 0x60u32) by (bit_vector);
    assert(0x2000u32 | 0x4000u32 | 0x800u32 | 0x1000u32 | 0x2u32 | 0x4u32 | 0x8u32 | 0x1u32 | 0x20u32 | 0x40u32
        == 0x786fu32) by (bit_vector);
    assert(r == ((if u & 1u32 != 0 { 0x2000u32 } else { 0u32 }) | (if u & 2u32 != 0 { 0x4000u32 } else { 0u32 }) | (if u & 4u32 != 0 { 0x800u32 } else { 0u32 }) | (if u & 8u32 != 0 { 0x1000u32 } else { 0u32 }) | (if u & 16u32 != 0 { 0x2u32 } else { 0u32 }) | (if u & 32u32 != 0 { 0x4u32 } else { 0u32 }) | (if u & 64u32 != 0 { 0x8u32 } else { 0u32 }) | (if u & 256u32 != 0 { 0x1u32 } else { 0u32 }) | (if u & 128u32 != 0 { 0x60u32 } else { 0u32 })));
    assert({
        &&& (r & 0x2000u32 != 0 <==> u & 1u32 != 0)
        &&& (r & 0x4000u32 != 0 <==> u & 2u32 != 0)
        &&& (r & 0x800u32 != 0 <==> u & 4u32 != 0)
        &&& (r & 0x1000u32 != 0 <==> u & 8u32 != 0)
        &&& (r & 0x2u32 != 0 <==> u & 16u32 != 0)
        &&& (r & 0x4u32 != 0 <==> u & 32u32 != 0)
        &&& (r & 0x8u32 != 0 <==> u & 64u32 != 0)
        &&& (r & 0x1u32 != 0 <==> u & 256u32 != 0)
        &&& (r & 0x20u32 != 0 <==> u & 128u32 != 0)
        &&& (r & 0x40u32 != 0 <==> u & 128u32 != 0)
        &&& r & !0x786fu32 == 0
    }) by (bit_vector)
        requires
            r == ((if u & 1u32 != 0 { 0x2000u32 } else { 0u32 }) | (if u & 2u32 != 0 { 0x4000u32 } else { 0u32 }) | (if u & 4u32 != 0 { 0x800u32 } else { 0u32 }) | (if u & 8u32 != 0 { 0x1000u32 } else { 0u32 }) | (if u & 16u32 != 0 { 0x2u32 } else { 0u32 }) | (if u & 32u32 != 0 { 0x4u32 } else { 0u32 }) | (if u & 64u32 != 0 { 0x8u32 } else { 0u32 }) | (if u & 256u32 != 0 { 0x1u32 } else { 0u32 }) | (if u & 128u32 != 0 { 0x60u32 } else { 0u32 })),
    ;
}

/// The memory accesses a buffer usage performs.
pub fn access_flags(usage: BufferUsageFlags) -> (r: u32)
    ensures
        r == spec_access_flags(usage),
{
    pick(usage.bits & BUFFER_USAGE_MAP_READ != 0, vk::ACCESS_HOST_READ) | pick(
        usage.bits & BUFFER_USAGE_MAP_WRITE != 0,
        vk::ACCESS_HOST_WRITE,
    ) | pick(usage.bits & BUFFER_USAGE_TRANSFER_SRC != 0, vk::ACCESS_TRANSFER_READ) | pick(
        usage.bits & BUFFER_USAGE_TRANSFER_DST != 0,
        vk::ACCESS_TRANSFER_WRITE,
    ) | pick(usage.bits & BUFFER_USAGE_INDEX != 0, vk::ACCESS_INDEX_READ) | pick(
        usage.bits & BUFFER_USAGE_VERTEX != 0,
        vk::ACCESS_VERTEX_ATTRIBUTE_READ,
    ) | pick(usage.bits & BUFFER_USAGE_UNIFORM != 0, vk::ACCESS_UNIFORM_READ) | pick(
        usage.bits & BUFFER_USAGE_INDIRECT != 0,
        vk::ACCESS_INDIRECT_COMMAND_READ,
    ) | pick(
        usage.bits & BUFFER_USAGE_STORAGE != 0,
        vk::ACCESS_SHADER_READ | vk::ACCESS_SHADER_WRITE,
    )
}

/// A memory barrier over a whole buffer.
#[derive(Clone, Copy, Debug, PartialEq, Eq, Structural, Hash)]
pub struct BufferBarrier {
    pub src_stage_mask: u32,
    pub dst_stage_mask: u32,
    pub src_access_mask: u32,
    pub dst_access_mask: u32,
    pub size: u64,
}

/// The usage a buffer was last put to.
#[derive(Clone, Copy, Debug, PartialEq, Eq, Structural, Hash)]
pub struct BufferUsageState {
    pub last_usage: BufferUsageFlags,
}

/// No barrier is needed when the last usage was read-only and already
/// includes the new usage.
pub open spec fn buffer_transition_skipped(last: BufferUsageFlags, usage: BufferUsageFlags) -> bool {
    has_all(last.bits, usage.bits) && last.bits & read_only_bits() == last.bits
}

impl BufferUsageState {
    /// A buffer that has not been used yet.
    pub fn new() -> (r: Self)
        ensures
            r.last_usage.bits == BUFFER_USAGE_NONE,
    {
        BufferUsageState { last_usage: BufferUsageFlags { bits: BUFFER_USAGE_NONE } }
    }

    /// Moves a buffer of `size` bytes to `usage`. Returns the barrier to record
    /// before the new usage, if one is needed. A read-only last usage that
    /// includes the new one is kept as it is; the first usage needs no barrier.
    pub fn transition_usage_now(&mut self, usage: BufferUsageFlags, size: u64) -> (r: Option<
        BufferBarrier,
    >)
        ensures
            buffer_transition_skipped(old(self).last_usage, usage) ==> r.is_none() && *final(self)
                == *old(self),
            !buffer_transition_skipped(old(self).last_usage, usage) ==> final(self).last_usage
                == usage,
            !buffer_transition_skipped(old(self).last_usage, usage) && old(self).last_usage.bits
                == BUFFER_USAGE_NONE ==> r.is_none(),
            !buffer_transition_skipped(old(self).last_usage, usage) && old(self).last_usage.bits
                != BUFFER_USAGE_NONE ==> r == Some(
                BufferBarrier {
                    src_stage_mask: spec_pipeline_stage(old(self).last_usage),
                    dst_stage_mask: spec_pipeline_stage(usage),
                    src_access_mask: spec_access_flags(old(self).last_usage),
                    dst_access_mask: spec_access_flags(usage),
                    size,
                },
            ),
    {
        let last = self.last_usage;
        let last_includes_target = (last.bits & usage.bits) == usage.bits;
        let last_read_only = (last.bits & read_only_buffer_usages().bits) == last.bits;
        if last_includes_target && last_read_only {
            return None;
        }
        if last.bits == BUFFER_USAGE_NONE {
            self.last_usage = usage;
            return None;
        }
        let barrier = BufferBarrier {
            src_stage_mask: pipeline_stage(last),
            dst_stage_mask: pipeline_stage(usage),
            src_access_mask: access_flags(last),
            dst_access_mask: access_flags(usage),
            size,
        };
        self.last_usage = usage;
        Some(barrier)
    }
}

/// Tracks whether a buffer is mapped.
#[derive(Clone, Copy, Debug, PartialEq, Eq, Structural, Hash)]
pub struct BufferMapState {
    pub state: BufferState,
}

impl BufferMapState {
    pub fn new() -> (r: Self)
        ensures
            r.state == BufferState::Unmapped,
    {
        BufferMapState { state: BufferState::Unmapped }
    }

    /// Marks the buffer as mapped. Mapping a buffer that is already mapped
    /// fails with a validation error and changes nothing.
    pub fn begin_mapping(&mut self) -> (r: Result<(), Error>)
        ensures
            old(self).state == BufferState::Mapped ==> r.is_err() && *final(self) == *old(self)
                && r.unwrap_err().kind == crate::error::ErrorKind::Code(
                vk::RESULT_ERROR_VALIDATION_FAILED_EXT,
            ),
            old(self).state != BufferState::Mapped ==> r.is_ok() && final(self).state
                == BufferState::Mapped,
    {
        match self.state {
            BufferState::Mapped => Err(Error::validation_failed()),
            _ => {
                self.state = BufferState::Mapped;
                Ok(())
            },
        }
    }

    /// Marks a mapped buffer as unmapped; other states are kept.
    pub fn end_mapping(&mut self)
        ensures
            old(self).state == BufferState::Mapped ==> final(self).state == BufferState::Unmapped,
            old(self).state != BufferState::Mapped ==> *final(self) == *old(self),
    {
        if let BufferState::Mapped = self.state {
            self.state = BufferState::Unmapped;
        }
    }
}

/// Checks that a buffer with `descriptor` may be mapped for `required`
/// access over `element_count` elements of `element_size` bytes starting at
/// element `element_offset`. A buffer without any of the required usages is
/// refused with a message; a range past the end of the buffer is refused
/// with a validation error.
pub fn validate_mapping(
    descriptor: &BufferDescriptor,
    element_size: usize,
    element_offset: usize,
    element_count: usize,
    required: BufferUsageFlags,
) -> (r: Result<(), Error>)
    requires
        element_size * element_count <= usize::MAX,
        element_size * element_offset <= usize::MAX,
        element_size * element_offset + element_size * element_count <= usize::MAX,
    ensures
        descriptor.usage.bits & required.bits == 0 ==> (r matches Err(e) && e.kind is Message),
        descriptor.usage.bits & required.bits != 0 && descriptor.size < element_size
            * element_offset + element_size * element_count ==> (r matches Err(e) && e.kind
            == crate::error::ErrorKind::Code(vk::RESULT_ERROR_VALIDATION_FAILED_EXT)),
        descriptor.usage.bits & required.bits != 0 && descriptor.size >= element_size
            * element_offset + element_size * element_count ==> r.is_ok(),
{
    let data_size = element_size * element_count;
    let offset_bytes = element_size * element_offset;
    if descriptor.usage.bits & required.bits == 0 {
        return Err(Error::from_message("missing required usage"));
    }
    let end = (offset_bytes + data_size) as u64;
    if descriptor.size < end {
        return Err(Error::validation_failed());
    }
    Ok(())
}

/// A buffer whose memory is mapped for host access.
#[derive(Clone, Copy, Debug, PartialEq, Eq, Structural, Hash)]
pub struct MappedBuffer {
    pub buffer: Buffer,
}

/// A range of a mapped buffer, in elements of `T`, opened for writing.
#[derive(Debug)]
pub struct WriteData<T> {
    pub offset_bytes: usize,
    pub element_count: usize,
    pub marker: PhantomData<T>,
}

/// A byte range of mapped memory to flush to the device.
#[derive(Clone, Copy, Debug, PartialEq, Eq, Structural, Hash)]
pub struct FlushRange {
    pub offset_bytes: usize,
    pub length_bytes: usize,
}

impl MappedBuffer {
    /// Opens `element_count` elements starting at element `element_offset` for
    /// writing. The buffer must have been created with `MAP_WRITE` and the range
    /// must lie within it.
    pub fn write<T: Copy>(&mut self, element_offset: usize, element_count: usize) -> (r: Result<
        WriteData<T>,
        Error,
    >)
        requires
            vstd::layout::size_of::<T>() * element_count <= usize::MAX,
            vstd::layout::size_of::<T>() * element_offset <= usize::MAX,
            vstd::layout::size_of::<T>() * element_offset + vstd::layout::size_of::<T>()
                * element_count <= usize::MAX,
        ensures
            *final(self) == *old(self),
            old(self).buffer.descriptor.usage.bits & BUFFER_USAGE_MAP_WRITE == 0 ==> (r matches Err(e)
                && e.kind is Message),
            old(self).buffer.descriptor.usage.bits & BUFFER_USAGE_MAP_WRITE != 0 ==> (r is Ok
                <==> old(self).buffer.descriptor.size >= vstd::layout::size_of::<T>()
                * element_offset + vstd::layout::size_of::<T>() * element_count),
            old(self).buffer.descriptor.usage.bits & BUFFER_USAGE_MAP_WRITE != 0 && r is Err ==> (r matches Err(
                e,
            ) && e.kind == crate::error::ErrorKind::Code(vk::RESULT_ERROR_VALIDATION_FAILED_EXT)),
            r matches Ok(w) ==> (w.offset_bytes == vstd::layout::size_of::<T>() * element_offset
                && w.element_count == element_count),
    {
        let element_size = core::mem::size_of::<T>();
        let offset_bytes = element_size * element_offset;
        let required = BufferUsageFlags { bits: BUFFER_USAGE_MAP_WRITE };
        match validate_mapping(&self.buffer.descriptor, element_size, element_offset, element_count, required) {
            Err(e) => Err(e),
            Ok(()) => Ok(WriteData { offset_bytes, element_count, marker: PhantomData }),
        }
    }

    /// Ends the mapping and gives the buffer back; `map_state` is the
    /// buffer's, and afterwards the buffer is no longer mapped.
    pub fn unmap(self, map_state: &mut BufferMapState) -> (r: Buffer)
        ensures
            r == self.buffer,
            old(map_state).state == BufferState::Mapped ==> final(map_state).state == BufferState::Unmapped,
            old(map_state).state != BufferState::Mapped ==> *final(map_state) == *old(map_state),
    {
        map_state.end_mapping();
        self.buffer
    }
}

impl<T> WriteData<T> {
    /// The number of elements of `T` in the range.
    pub fn len(&self) -> (r: usize)
        ensures
            r == self.element_count,
    {
        self.element_count
    }

    /// Whether the range holds no element.
    pub fn is_empty(&self) -> (r: bool)
        ensures
            r == (self.element_count == 0),
    {
        self.len() == 0
    }

    /// The byte range that must be flushed for the writes to reach the device.
    pub fn flush(self) -> (r: FlushRange)
        requires
            vstd::layout::size_of::<T>() * self.element_count <= usize::MAX,
        ensures
            r.offset_bytes == self.offset_bytes,
            r.length_bytes == vstd::layout::size_of::<T>() * self.element_count,
    {
        let length_bytes = core::mem::size_of::<T>() * self.element_count;
        FlushRange { offset_bytes: self.offset_bytes, length_bytes }
    }
}

impl MappedBuffer {
    /// Checks filling the start of the buffer with `data`: the buffer must have
    /// been created with `MAP_WRITE` and be large enough. Returns the byte
    /// range to write the data to and then flush.
    pub fn copy_from_slice<T: Copy>(&self, data: &[T]) -> (r: Result<FlushRange, Error>)
        requires
            vstd::layout::size_of::<T>() * data@.len() <= usize::MAX,
        ensures
            self.buffer.descriptor.usage.bits & BUFFER_USAGE_MAP_WRITE == 0 ==> (r matches Err(e)
                && e.kind is Message),
            self.buffer.descriptor.usage.bits & BUFFER_USAGE_MAP_WRITE != 0 ==> (r is Ok
                <==> self.buffer.descriptor.size >= vstd::layout::size_of::<T>() * data@.len()),
            self.buffer.descriptor.usage.bits & BUFFER_USAGE_MAP_WRITE != 0 && r is Err ==> (r matches Err(
                e,
            ) && e.kind == crate::error::ErrorKind::Code(vk::RESULT_ERROR_VALIDATION_FAILED_EXT)),
            r matches Ok(f) ==> f.offset_bytes == 0 && f.length_bytes == vstd::layout::size_of::<T>()
                * data@.len(),
    {
        let element_size = core::mem::size_of::<T>();
        let required = BufferUsageFlags { bits: BUFFER_USAGE_MAP_WRITE };
        assert(element_size * 0usize == 0) by (nonlinear_arith);
        match validate_mapping(&self.buffer.descriptor, element_size, 0, data.len(), required) {
            Err(e) => Err(e),
            Ok(()) => Ok(FlushRange { offset_bytes: 0, length_bytes: element_size * data.len() }),
        }
    }

    /// Checks reading `element_count` elements of `T` from element
    /// `element_offset` on: the buffer must have been created with `MAP_READ`
    /// and the range must lie within it. Returns the byte range to invalidate
    /// and then read.
    pub fn read<T: Copy>(&self, element_offset: usize, element_count: usize) -> (r: Result<FlushRange, Error>)
        requires
            vstd::layout::size_of::<T>() * element_count <= usize::MAX,
            vstd::layout::size_of::<T>() * element_offset <= usize::MAX,
            vstd::layout::size_of::<T>() * element_offset + vstd::layout::size_of::<T>()
                * element_count <= usize::MAX,
        ensures
            self.buffer.descriptor.usage.bits & BUFFER_USAGE_MAP_READ == 0 ==> (r matches Err(e)
                && e.kind is Message),
            self.buffer.descriptor.usage.bits & BUFFER_USAGE_MAP_READ != 0 ==> (r is Ok
                <==> self.buffer.descriptor.size >= vstd::layout::size_of::<T>() * element_offset
                + vstd::layout::size_of::<T>() * element_count),
            self.buffer.descriptor.usage.bits & BUFFER_USAGE_MAP_READ != 0 && r is Err ==> (r matches Err(
                e,
            ) && e.kind == crate::error::ErrorKind::Code(vk::RESULT_ERROR_VALIDATION_FAILED_EXT)),
            r matches Ok(f) ==> f.offset_bytes == vstd::layout::size_of::<T>() * element_offset
                && f.length_bytes == vstd::layout::size_of::<T>() * element_count,
    {
        let element_size = core::mem::size_of::<T>();
        let required = BufferUsageFlags { bits: BUFFER_USAGE_MAP_READ };
        match validate_mapping(&self.buffer.descriptor, element_size, element_offset, element_count, required) {
            Err(e) => Err(e),
            Ok(()) => Ok(
                FlushRange {
                    offset_bytes: element_size * element_offset,
                    length_bytes: element_size * element_count,
                },
            ),
        }
    }
}

/// How a buffer is created: its size and Vulkan usage, owned by one queue
/// family, and where its memory should live.
#[derive(Clone, Copy, Debug, PartialEq, Eq, Structural, Hash)]
pub struct BufferPlan {
    pub size: u64,
    pub usage: u32,
    pub memory_usage: MemoryUsage,
}

impl Device {
    /// Works out how to create a buffer. A buffer must have some usage.
    pub fn create_buffer(&self, descriptor: &BufferDescriptor) -> (r: BufferPlan)
        requires
            descriptor.usage.bits != BUFFER_USAGE_NONE,
        ensures
            r.size == descriptor.size,
            r.usage == spec_usage_flags(descriptor.usage),
            r.memory_usage == spec_memory_usage(descriptor.usage),
    {
        BufferPlan {
            size: descriptor.size,
            usage: usage_flags(descriptor.usage),
            memory_usage: memory_usage(descriptor.usage),
        }
    }
}

/// Describes a view of a buffer's bytes as texels of a format.
#[derive(Clone, Copy, Debug, PartialEq, Eq, Structural, Hash)]
pub struct BufferViewDescriptor {
    /// The Vulkan format of the texels.
    pub format: i32,
    pub offset: u64,
    pub size: u64,
}

/// How a buffer view is created.
#[derive(Clone, Copy, Debug, PartialEq, Eq, Structural, Hash)]
pub struct BufferViewPlan {
    pub buffer: u64,
    pub offset: u64,
    pub range: u64,
    pub format: i32,
}

impl Buffer {
    /// How a view of the buffer described by `descriptor` is created.
    pub fn create_view(&self, descriptor: BufferViewDescriptor) -> (r: BufferViewPlan)
        ensures
            r == (BufferViewPlan {
                buffer: self.handle,
                offset: descriptor.offset,
                range: descriptor.size,
                format: descriptor.format,
            }),
    {
        BufferViewPlan {
            buffer: self.handle,
            offset: descriptor.offset,
            range: descriptor.size,
            format: descriptor.format,
        }
    }

    /// The view that creating one of the buffer gave the Vulkan handle
    /// `handle`: it refers to this buffer.
    pub fn created_view(&self, handle: u64) -> (r: BufferView)
        ensures
            r.handle == handle,
            r.buffer == *self,
    {
        BufferView { handle, buffer: *self }
    }
}

/// A created buffer with what its device tracks of it.
#[derive(Clone, Copy, Debug, PartialEq, Eq, Structural, Hash)]
pub struct CreatedBuffer {
    pub buffer: Buffer,
    pub map_state: BufferMapState,
    pub usage_state: BufferUsageState,
}

impl Device {
    /// The buffer that creating a buffer for `descriptor` gave the Vulkan
    /// handle `handle`: it keeps the descriptor, is not mapped and has not been
    /// used yet.
    pub fn created_buffer(&self, descriptor: BufferDescriptor, handle: u64) -> (r: CreatedBuffer)
        ensures
            r.buffer.handle == handle,
            r.buffer.descriptor == descriptor,
            r.map_state.state == BufferState::Unmapped,
            r.usage_state.last_usage.bits == BUFFER_USAGE_NONE,
    {
        CreatedBuffer {
            buffer: Buffer { handle, descriptor },
            map_state: BufferMapState::new(),
            usage_state: BufferUsageState::new(),
        }
    }
}

impl Buffer {
    /// Maps the buffer for reading; `map_state` is the buffer's. A buffer
    /// created without `MAP_READ`, or mapped already, is refused with a
    /// validation error and `map_state` is kept.
    pub fn map_read(&self, map_state: &mut BufferMapState) -> (r: Result<MappedBuffer, Error>)
        ensures
            self.descriptor.usage.bits & BUFFER_USAGE_MAP_READ == 0 || old(map_state).state == BufferState::Mapped
                ==> (r matches Err(e) && e.kind == crate::error::ErrorKind::Code(
                vk::RESULT_ERROR_VALIDATION_FAILED_EXT,
            ) && *final(map_state) == *old(map_state)),
            self.descriptor.usage.bits & BUFFER_USAGE_MAP_READ != 0 && old(map_state).state != BufferState::Mapped
                ==> (r == Ok::<MappedBuffer, Error>(MappedBuffer { buffer: *self }) && final(map_state).state
                == BufferState::Mapped),
    {
        self.map(map_state, BUFFER_USAGE_MAP_READ)
    }

    /// Maps the buffer for writing; `map_state` is the buffer's. A buffer
    /// created without `MAP_WRITE`, or mapped already, is refused with a
    /// validation error and `map_state` is kept.
    pub fn map_write(&self, map_state: &mut BufferMapState) -> (r: Result<MappedBuffer, Error>)
        ensures
            self.descriptor.usage.bits & BUFFER_USAGE_MAP_WRITE == 0 || old(map_state).state == BufferState::Mapped
                ==> (r matches Err(e) && e.kind == crate::error::ErrorKind::Code(
                vk::RESULT_ERROR_VALIDATION_FAILED_EXT,
            ) && *final(map_state) == *old(map_state)),
            self.descriptor.usage.bits & BUFFER_USAGE_MAP_WRITE != 0 && old(map_state).state != BufferState::Mapped
                ==> (r == Ok::<MappedBuffer, Error>(MappedBuffer { buffer: *self }) && final(map_state).state
                == BufferState::Mapped),
    {
        self.map(map_state, BUFFER_USAGE_MAP_WRITE)
    }

    fn map(&self, map_state: &mut BufferMapState, required: u32) -> (r: Result<MappedBuffer, Error>)
        ensures
            self.descriptor.usage.bits & required == 0 || old(map_state).state == BufferState::Mapped ==> (r matches Err(
                e,
            ) && e.kind == crate::error::ErrorKind::Code(vk::RESULT_ERROR_VALIDATION_FAILED_EXT)
                && *final(map_state) == *old(map_state)),
            self.descriptor.usage.bits & required != 0 && old(map_state).state != BufferState::Mapped ==> (r
                == Ok::<MappedBuffer, Error>(MappedBuffer { buffer: *self }) && final(map_state).state
                == BufferState::Mapped),
    {
        if self.descriptor.usage.bits & required == 0 {
            return Err(Error::validation_failed());
        }
        match map_state.begin_mapping() {
            Ok(()) => Ok(MappedBuffer { buffer: *self }),
            Err(e) => Err(e),
        }
    }
}

/// A validated upload of host data into a buffer.
#[derive(Clone, Copy, Debug, PartialEq, Eq, Structural, Hash)]
pub struct SubDataUpload {
    pub offset_bytes: u64,
    pub size_bytes: usize,
    /// The barrier to record before the copy, if the buffer was not last used
    /// as a copy destination.
    pub barrier: Option<BufferBarrier>,
}

/// The largest upload that `sub_data_upload` accepts, in bytes.
pub const MAX_SUB_DATA_BYTES: usize = 65535;

impl Buffer {
    /// Validates copying `element_count` elements of `element_size` bytes into
    /// the buffer at element `offset`, and moves the buffer to the copy
    /// destination usage. A buffer created without `TRANSFER_DST`, uploads
    /// above `MAX_SUB_DATA_BYTES` and ranges past the end of the buffer fail
    /// with a validation error; every other upload succeeds.
    pub fn sub_data_upload(
        &self,
        element_size: usize,
        offset: usize,
        element_count: usize,
        usage_state: &mut BufferUsageState,
    ) -> (r: Result<SubDataUpload, Error>)
        requires
            element_size * element_count <= usize::MAX,
            element_size * offset <= usize::MAX,
            element_size * offset + element_size * element_count <= u64::MAX,
        ensures
            self.descriptor.usage.bits & BUFFER_USAGE_TRANSFER_DST == 0 ==> (r matches Err(e) && e.kind
                == crate::error::ErrorKind::Code(vk::RESULT_ERROR_VALIDATION_FAILED_EXT)),
            self.descriptor.usage.bits & BUFFER_USAGE_TRANSFER_DST != 0 && element_size * element_count
                <= MAX_SUB_DATA_BYTES && element_size * offset + element_size * element_count
                <= self.descriptor.size ==> r is Ok,
            element_size * element_count > MAX_SUB_DATA_BYTES ==> (r matches Err(e) && e.kind
                == crate::error::ErrorKind::Code(vk::RESULT_ERROR_VALIDATION_FAILED_EXT)),
            element_size * element_count <= MAX_SUB_DATA_BYTES && element_size * offset
                + element_size * element_count > self.descriptor.size ==> (r matches Err(e)
                && e.kind == crate::error::ErrorKind::Code(vk::RESULT_ERROR_VALIDATION_FAILED_EXT)),
            r is Err ==> *final(usage_state) == *old(usage_state),
            r matches Ok(u) ==> {
                &&& self.descriptor.usage.bits & BUFFER_USAGE_TRANSFER_DST != 0
                &&& element_size * element_count <= MAX_SUB_DATA_BYTES
                &&& element_size * offset + element_size * element_count <= self.descriptor.size
                &&& u.offset_bytes == element_size * offset
                &&& u.size_bytes == element_size * element_count
                &&& final(usage_state).last_usage.bits == BUFFER_USAGE_TRANSFER_DST
                &&& (old(usage_state).last_usage.bits == BUFFER_USAGE_TRANSFER_DST ==> u.barrier.is_none())
                &&& (old(usage_state).last_usage.bits == BUFFER_USAGE_NONE ==> u.barrier.is_none())
                &&& (old(usage_state).last_usage.bits != BUFFER_USAGE_TRANSFER_DST
                    && old(usage_state).last_usage.bits != BUFFER_USAGE_NONE ==> u.barrier == Some(
                    BufferBarrier {
                        src_stage_mask: spec_pipeline_stage(old(usage_state).last_usage),
                        dst_stage_mask: vk::PIPELINE_STAGE_TRANSFER,
                        src_access_mask: spec_access_flags(old(usage_state).last_usage),
                        dst_access_mask: vk::ACCESS_TRANSFER_WRITE,
                        size: self.descriptor.size,
                    },
                ))
            },
    {
        let data_size = element_size * element_count;
        let offset_bytes = element_size * offset;
        if self.descriptor.usage.bits & BUFFER_USAGE_TRANSFER_DST == 0 {
            return Err(Error::validation_failed());
        }
        if data_size > MAX_SUB_DATA_BYTES {
            return Err(Error::validation_failed());
        }
        if offset_bytes as u64 + data_size as u64 > self.descriptor.size {
            return Err(Error::validation_failed());
        }
        let target = BufferUsageFlags { bits: BUFFER_USAGE_TRANSFER_DST };
        let barrier = if usage_state.last_usage.bits != BUFFER_USAGE_TRANSFER_DST {
            proof {
                let l = usage_state.last_usage.bits;
                assert(l != 8 ==> !(l & 8u32 == 8u32 && l & 117u32 == l)) by (bit_vector);
                assert(read_only_bits() == 117u32) by (bit_vector);
                assert(stage_bits(8) == vk::PIPELINE_STAGE_TRANSFER) by (bit_vector);
                assert(access_bits(8) == vk::ACCESS_TRANSFER_WRITE) by (bit_vector);
            }
            usage_state.transition_usage_now(target, self.descriptor.size)
        } else {
            None
        };
        Ok(SubDataUpload { offset_bytes: offset_bytes as u64, size_bytes: data_size, barrier })
    }
}

/// After a buffer moves to a read-only usage, moving it to that same usage
/// again is skipped: no barrier is recorded and its state stays.
pub proof fn lemma_repeated_read_only_buffer_transition_is_skipped(usage: BufferUsageFlags)
    requires
        usage.bits & read_only_bits() == usage.bits,
    ensures
        buffer_transition_skipped(usage, usage),
{
    let u = usage.bits;
    assert(u & u == u) by (bit_vector);
}

} // verus!
