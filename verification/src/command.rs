use vstd::prelude::*;

use crate::flags::ShaderStageFlags;
use crate::resources::{Buffer, ComputePipeline, RenderPipeline, Texture, TextureView};
use crate::types::{ColorBits, Extent3D, FilterMode, LoadOp, Origin3D, StoreOp};

verus! {

/// The buffer side of a copy.
#[derive(Clone, Copy, Debug, PartialEq, Eq, Structural, Hash)]
pub struct BufferCopy {
    pub buffer: Buffer,
    pub offset: u64,
    pub row_pitch: u32,
    pub image_height: u32,
}

/// The texture side of a copy.
#[derive(Clone, Copy, Debug, PartialEq, Eq, Structural, Hash)]
pub struct TextureCopy {
    pub texture: Texture,
    pub mip_level: u32,
    pub array_layer: u32,
    pub origin_texels: Origin3D,
}

/// One side of a blit: a box of texels given by two corners.
#[derive(Clone, Copy, Debug, Hash)]
pub struct TextureBlit {
    pub texture: Texture,
    pub mip_level: u32,
    pub array_layer: u32,
    pub bounds_texels: [Origin3D; 2],
}

/// A buffer region copied to or from.
#[derive(Clone, Copy, Debug, PartialEq, Eq, Structural, Hash)]
pub struct BufferCopyView {
    pub buffer: Buffer,
    pub offset: u64,
    pub row_pitch: u32,
    pub image_height: u32,
}

/// A texture region copied to or from.
#[derive(Clone, Copy, Debug, PartialEq, Eq, Structural, Hash)]
pub struct TextureCopyView {
    pub texture: Texture,
    pub mip_level: u32,
    pub array_layer: u32,
    pub origin: Origin3D,
}

/// A texture region blitted to or from.
#[derive(Clone, Copy, Debug, Hash)]
pub struct TextureBlitView {
    pub texture: Texture,
    pub mip_level: u32,
    pub array_layer: u32,
    pub bounds: [Origin3D; 2],
}

/// A color target of a render pass. The clear color is held as bit patterns.
#[derive(Clone, Copy, Debug, PartialEq, Eq, Structural, Hash)]
pub struct RenderPassColorAttachmentDescriptor {
    pub attachment: TextureView,
    pub resolve_target: Option<TextureView>,
    pub load_op: LoadOp,
    pub store_op: StoreOp,
    pub clear_color: ColorBits,
}

/// The depth stencil target of a render pass. The clear depth is held as its
/// IEEE-754 single precision bit pattern.
#[derive(Clone, Copy, Debug, PartialEq, Eq, Structural, Hash)]
pub struct RenderPassDepthStencilAttachmentDescriptor {
    pub attachment: TextureView,
    pub depth_load_op: LoadOp,
    pub depth_store_op: StoreOp,
    pub clear_depth_bits: u32,
    pub stencil_load_op: LoadOp,
    pub stencil_store_op: StoreOp,
    pub clear_stencil: u32,
}

/// The targets of a render pass.
#[derive(Clone, Debug)]
pub struct RenderPassDescriptor {
    pub color_attachments: Vec<RenderPassColorAttachmentDescriptor>,
    pub depth_stencil_attachment: Option<RenderPassDepthStencilAttachmentDescriptor>,
}

/// A recorded command, replayed into a Vulkan command buffer on submission.
/// Objects are referred to by value; floating point values are held as their
/// bit patterns.
#[derive(Clone, Debug)]
pub enum Command {
    BeginComputePass,
    BeginRenderPass {
        color_attachments: Vec<RenderPassColorAttachmentDescriptor>,
        depth_stencil_attachment: Option<RenderPassDepthStencilAttachmentDescriptor>,
        width: u32,
        height: u32,
        sample_count: u32,
    },
    CopyBufferToBuffer { src: BufferCopy, dst: BufferCopy, size_bytes: u64 },
    CopyBufferToTexture { src: BufferCopy, dst: TextureCopy, size_texels: Extent3D },
    CopyTextureToBuffer { src: TextureCopy, dst: BufferCopy, size_texels: Extent3D },
    CopyTextureToTexture { src: TextureCopy, dst: TextureCopy, size_texels: Extent3D },
    BlitTextureToTexture { src: TextureBlit, dst: TextureBlit, filter: FilterMode },
    Dispatch { x: u32, y: u32, z: u32 },
    DispatchIndirect { buffer: Buffer, indirect_offset: u64 },
    Draw { vertex_count: u32, instance_count: u32, first_vertex: u32, first_instance: u32 },
    DrawIndexed {
        index_count: u32,
        instance_count: u32,
        first_index: u32,
        base_vertex: i32,
        first_instance: u32,
    },
    DrawIndirect { buffer: Buffer, indirect_offset: u64 },
    DrawIndexedIndirect { buffer: Buffer, indirect_offset: u64 },
    EndComputePass,
    EndRenderPass,
    InsertDebugMarker { marker_label: String },
    PopDebugGroup,
    PushDebugGroup { group_label: String },
    SetComputePipeline { pipeline: ComputePipeline },
    SetRenderPipeline { pipeline: RenderPipeline },
    SetPushConstants { stages: ShaderStageFlags, offset_bytes: u32, size_bytes: u32, values: Vec<u8> },
    SetStencilReference { reference: u32 },
    SetScissorRect { x: u32, y: u32, width: u32, height: u32 },
    SetBlendColor { color: ColorBits },
    SetBindGroup { index: u32, bind_group: u64, dynamic_offsets: Option<Vec<u32>> },
    SetIndexBuffer { buffer: Buffer, offset: u32 },
    SetVertexBuffers { start_slot: u32, buffers: Vec<Buffer>, offsets: Vec<u64> },
    SetViewport {
        x_bits: u32,
        y_bits: u32,
        width_bits: u32,
        height_bits: u32,
        min_depth_bits: u32,
        max_depth_bits: u32,
    },
}

} // verus!
