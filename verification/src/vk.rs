use vstd::prelude::*;

verus! {

// Numeric values of the Vulkan enumerants and flag bits that the library
// selects: the raw values of the Vulkan API, as `ash::vk` defines them too.

// VkPipelineStageFlagBits
pub const PIPELINE_STAGE_TOP_OF_PIPE: u32 = 0x1;
pub const PIPELINE_STAGE_DRAW_INDIRECT: u32 = 0x2;
pub const PIPELINE_STAGE_VERTEX_INPUT: u32 = 0x4;
pub const PIPELINE_STAGE_VERTEX_SHADER: u32 = 0x8;
pub const PIPELINE_STAGE_FRAGMENT_SHADER: u32 = 0x80;
pub const PIPELINE_STAGE_EARLY_FRAGMENT_TESTS: u32 = 0x100;
pub const PIPELINE_STAGE_LATE_FRAGMENT_TESTS: u32 = 0x200;
pub const PIPELINE_STAGE_COLOR_ATTACHMENT_OUTPUT: u32 = 0x400;
pub const PIPELINE_STAGE_COMPUTE_SHADER: u32 = 0x800;
pub const PIPELINE_STAGE_TRANSFER: u32 = 0x1000;
pub const PIPELINE_STAGE_BOTTOM_OF_PIPE: u32 = 0x2000;
pub const PIPELINE_STAGE_HOST: u32 = 0x4000;
pub const PIPELINE_STAGE_ALL_COMMANDS: u32 = 0x10000;

// VkAccessFlagBits
pub const ACCESS_INDIRECT_COMMAND_READ: u32 = 0x1;
pub const ACCESS_INDEX_READ: u32 = 0x2;
pub const ACCESS_VERTEX_ATTRIBUTE_READ: u32 = 0x4;
pub const ACCESS_UNIFORM_READ: u32 = 0x8;
pub const ACCESS_SHADER_READ: u32 = 0x20;
pub const ACCESS_SHADER_WRITE: u32 = 0x40;
pub const ACCESS_COLOR_ATTACHMENT_READ: u32 = 0x80;
pub const ACCESS_COLOR_ATTACHMENT_WRITE: u32 = 0x100;
pub const ACCESS_DEPTH_STENCIL_ATTACHMENT_READ: u32 = 0x200;
pub const ACCESS_DEPTH_STENCIL_ATTACHMENT_WRITE: u32 = 0x400;
pub const ACCESS_TRANSFER_READ: u32 = 0x800;
pub const ACCESS_TRANSFER_WRITE: u32 = 0x1000;
pub const ACCESS_HOST_READ: u32 = 0x2000;
pub const ACCESS_HOST_WRITE: u32 = 0x4000;

// VkBufferUsageFlagBits
pub const BUFFER_USAGE_TRANSFER_SRC: u32 = 0x1;
pub const BUFFER_USAGE_TRANSFER_DST: u32 = 0x2;
pub const BUFFER_USAGE_STORAGE_TEXEL_BUFFER: u32 = 0x8;
pub const BUFFER_USAGE_UNIFORM_BUFFER: u32 = 0x10;
pub const BUFFER_USAGE_STORAGE_BUFFER: u32 = 0x20;
pub const BUFFER_USAGE_INDEX_BUFFER: u32 = 0x40;
pub const BUFFER_USAGE_VERTEX_BUFFER: u32 = 0x80;
pub const BUFFER_USAGE_INDIRECT_BUFFER: u32 = 0x100;

// VkImageUsageFlagBits
pub const IMAGE_USAGE_TRANSFER_SRC: u32 = 0x1;
pub const IMAGE_USAGE_TRANSFER_DST: u32 = 0x2;
pub const IMAGE_USAGE_SAMPLED: u32 = 0x4;
pub const IMAGE_USAGE_STORAGE: u32 = 0x8;
pub const IMAGE_USAGE_COLOR_ATTACHMENT: u32 = 0x10;
pub const IMAGE_USAGE_DEPTH_STENCIL_ATTACHMENT: u32 = 0x20;

// VkImageAspectFlagBits
pub const IMAGE_ASPECT_COLOR: u32 = 0x1;
pub const IMAGE_ASPECT_DEPTH: u32 = 0x2;
pub const IMAGE_ASPECT_STENCIL: u32 = 0x4;

// VkImageCreateFlagBits
pub const IMAGE_CREATE_CUBE_COMPATIBLE: u32 = 0x10;

// VkImageLayout
pub const IMAGE_LAYOUT_UNDEFINED: i32 = 0;
pub const IMAGE_LAYOUT_GENERAL: i32 = 1;
pub const IMAGE_LAYOUT_COLOR_ATTACHMENT_OPTIMAL: i32 = 2;
pub const IMAGE_LAYOUT_DEPTH_STENCIL_ATTACHMENT_OPTIMAL: i32 = 3;
pub const IMAGE_LAYOUT_SHADER_READ_ONLY_OPTIMAL: i32 = 5;
pub const IMAGE_LAYOUT_TRANSFER_SRC_OPTIMAL: i32 = 6;
pub const IMAGE_LAYOUT_TRANSFER_DST_OPTIMAL: i32 = 7;
pub const IMAGE_LAYOUT_PRESENT_SRC_KHR: i32 = 1000001002;

// VkFormat
pub const FORMAT_UNDEFINED: i32 = 0;
pub const FORMAT_R8_UNORM: i32 = 9;
pub const FORMAT_R8_SNORM: i32 = 10;
pub const FORMAT_R8_UINT: i32 = 13;
pub const FORMAT_R8_SINT: i32 = 14;
pub const FORMAT_R8_SRGB: i32 = 15;
pub const FORMAT_R8G8_UNORM: i32 = 16;
pub const FORMAT_R8G8_SNORM: i32 = 17;
pub const FORMAT_R8G8_UINT: i32 = 20;
pub const FORMAT_R8G8_SINT: i32 = 21;
pub const FORMAT_R8G8B8A8_UNORM: i32 = 37;
pub const FORMAT_R8G8B8A8_SNORM: i32 = 38;
pub const FORMAT_R8G8B8A8_UINT: i32 = 41;
pub const FORMAT_R8G8B8A8_SINT: i32 = 42;
pub const FORMAT_B8G8R8A8_UNORM: i32 = 44;
pub const FORMAT_B8G8R8A8_SRGB: i32 = 50;
pub const FORMAT_R16G16_UNORM: i32 = 77;
pub const FORMAT_R16G16_SNORM: i32 = 78;
pub const FORMAT_R16G16_UINT: i32 = 81;
pub const FORMAT_R16G16_SINT: i32 = 82;
pub const FORMAT_R16G16_SFLOAT: i32 = 83;
pub const FORMAT_R16G16B16A16_UNORM: i32 = 91;
pub const FORMAT_R16G16B16A16_SNORM: i32 = 92;
pub const FORMAT_R16G16B16A16_UINT: i32 = 95;
pub const FORMAT_R16G16B16A16_SINT: i32 = 96;
pub const FORMAT_R16G16B16A16_SFLOAT: i32 = 97;
pub const FORMAT_R32_UINT: i32 = 98;
pub const FORMAT_R32_SINT: i32 = 99;
pub const FORMAT_R32_SFLOAT: i32 = 100;
pub const FORMAT_R32G32_UINT: i32 = 101;
pub const FORMAT_R32G32_SINT: i32 = 102;
pub const FORMAT_R32G32_SFLOAT: i32 = 103;
pub const FORMAT_R32G32B32_UINT: i32 = 104;
pub const FORMAT_R32G32B32_SINT: i32 = 105;
pub const FORMAT_R32G32B32_SFLOAT: i32 = 106;
pub const FORMAT_R32G32B32A32_UINT: i32 = 107;
pub const FORMAT_R32G32B32A32_SINT: i32 = 108;
pub const FORMAT_R32G32B32A32_SFLOAT: i32 = 109;
pub const FORMAT_D32_SFLOAT: i32 = 126;
pub const FORMAT_D32_SFLOAT_S8_UINT: i32 = 130;

// VkImageType
pub const IMAGE_TYPE_1D: i32 = 0;
pub const IMAGE_TYPE_2D: i32 = 1;
pub const IMAGE_TYPE_3D: i32 = 2;

// VkImageViewType
pub const IMAGE_VIEW_TYPE_1D: i32 = 0;
pub const IMAGE_VIEW_TYPE_2D: i32 = 1;
pub const IMAGE_VIEW_TYPE_3D: i32 = 2;
pub const IMAGE_VIEW_TYPE_CUBE: i32 = 3;

// VkDescriptorType
pub const DESCRIPTOR_TYPE_SAMPLER: i32 = 0;
pub const DESCRIPTOR_TYPE_SAMPLED_IMAGE: i32 = 2;
pub const DESCRIPTOR_TYPE_STORAGE_TEXEL_BUFFER: i32 = 5;
pub const DESCRIPTOR_TYPE_UNIFORM_BUFFER: i32 = 6;
pub const DESCRIPTOR_TYPE_STORAGE_BUFFER: i32 = 7;
pub const DESCRIPTOR_TYPE_UNIFORM_BUFFER_DYNAMIC: i32 = 8;
pub const DESCRIPTOR_TYPE_STORAGE_BUFFER_DYNAMIC: i32 = 9;

// VkShaderStageFlagBits
pub const SHADER_STAGE_VERTEX: u32 = 0x1;
pub const SHADER_STAGE_FRAGMENT: u32 = 0x10;
pub const SHADER_STAGE_COMPUTE: u32 = 0x20;

// VkPrimitiveTopology
pub const PRIMITIVE_TOPOLOGY_POINT_LIST: i32 = 0;
pub const PRIMITIVE_TOPOLOGY_LINE_LIST: i32 = 1;
pub const PRIMITIVE_TOPOLOGY_LINE_STRIP: i32 = 2;
pub const PRIMITIVE_TOPOLOGY_TRIANGLE_LIST: i32 = 3;
pub const PRIMITIVE_TOPOLOGY_TRIANGLE_STRIP: i32 = 4;

// VkBlendFactor
pub const BLEND_FACTOR_ZERO: i32 = 0;
pub const BLEND_FACTOR_ONE: i32 = 1;
pub const BLEND_FACTOR_SRC_COLOR: i32 = 2;
pub const BLEND_FACTOR_ONE_MINUS_SRC_COLOR: i32 = 3;
pub const BLEND_FACTOR_DST_COLOR: i32 = 4;
pub const BLEND_FACTOR_ONE_MINUS_DST_COLOR: i32 = 5;
pub const BLEND_FACTOR_SRC_ALPHA: i32 = 6;
pub const BLEND_FACTOR_ONE_MINUS_SRC_ALPHA: i32 = 7;
pub const BLEND_FACTOR_DST_ALPHA: i32 = 8;
pub const BLEND_FACTOR_ONE_MINUS_DST_ALPHA: i32 = 9;
pub const BLEND_FACTOR_CONSTANT_COLOR: i32 = 10;
pub const BLEND_FACTOR_ONE_MINUS_CONSTANT_COLOR: i32 = 11;
pub const BLEND_FACTOR_SRC_ALPHA_SATURATE: i32 = 14;

// VkBlendOp
pub const BLEND_OP_ADD: i32 = 0;
pub const BLEND_OP_SUBTRACT: i32 = 1;
pub const BLEND_OP_REVERSE_SUBTRACT: i32 = 2;
pub const BLEND_OP_MIN: i32 = 3;
pub const BLEND_OP_MAX: i32 = 4;

// VkColorComponentFlagBits
pub const COLOR_COMPONENT_R: u32 = 0x1;
pub const COLOR_COMPONENT_G: u32 = 0x2;
pub const COLOR_COMPONENT_B: u32 = 0x4;
pub const COLOR_COMPONENT_A: u32 = 0x8;

// VkStencilOp
pub const STENCIL_OP_KEEP: i32 = 0;
pub const STENCIL_OP_ZERO: i32 = 1;
pub const STENCIL_OP_REPLACE: i32 = 2;
pub const STENCIL_OP_INCREMENT_AND_CLAMP: i32 = 3;
pub const STENCIL_OP_DECREMENT_AND_CLAMP: i32 = 4;
pub const STENCIL_OP_INVERT: i32 = 5;
pub const STENCIL_OP_INCREMENT_AND_WRAP: i32 = 6;
pub const STENCIL_OP_DECREMENT_AND_WRAP: i32 = 7;

// VkCompareOp
pub const COMPARE_OP_NEVER: i32 = 0;
pub const COMPARE_OP_LESS: i32 = 1;
pub const COMPARE_OP_EQUAL: i32 = 2;
pub const COMPARE_OP_LESS_OR_EQUAL: i32 = 3;
pub const COMPARE_OP_GREATER: i32 = 4;
pub const COMPARE_OP_NOT_EQUAL: i32 = 5;
pub const COMPARE_OP_GREATER_OR_EQUAL: i32 = 6;
pub const COMPARE_OP_ALWAYS: i32 = 7;

// VkCullModeFlagBits
pub const CULL_MODE_NONE: u32 = 0;
pub const CULL_MODE_FRONT: u32 = 0x1;
pub const CULL_MODE_BACK: u32 = 0x2;

// VkFrontFace
pub const FRONT_FACE_COUNTER_CLOCKWISE: i32 = 0;
pub const FRONT_FACE_CLOCKWISE: i32 = 1;

// VkVertexInputRate
pub const VERTEX_INPUT_RATE_VERTEX: i32 = 0;
pub const VERTEX_INPUT_RATE_INSTANCE: i32 = 1;

// VkSamplerAddressMode
pub const SAMPLER_ADDRESS_MODE_REPEAT: i32 = 0;
pub const SAMPLER_ADDRESS_MODE_MIRRORED_REPEAT: i32 = 1;
pub const SAMPLER_ADDRESS_MODE_CLAMP_TO_EDGE: i32 = 2;

// VkFilter
pub const FILTER_NEAREST: i32 = 0;
pub const FILTER_LINEAR: i32 = 1;

// VkSamplerMipmapMode
pub const SAMPLER_MIPMAP_MODE_NEAREST: i32 = 0;
pub const SAMPLER_MIPMAP_MODE_LINEAR: i32 = 1;

// VkAttachmentLoadOp / VkAttachmentStoreOp
pub const ATTACHMENT_LOAD_OP_LOAD: i32 = 0;
pub const ATTACHMENT_LOAD_OP_CLEAR: i32 = 1;
pub const ATTACHMENT_LOAD_OP_DONT_CARE: i32 = 2;
pub const ATTACHMENT_STORE_OP_STORE: i32 = 0;

// VK_ATTACHMENT_UNUSED
pub const ATTACHMENT_UNUSED: u32 = 0xffff_ffff;

// VkPresentModeKHR
pub const PRESENT_MODE_MAILBOX: i32 = 1;
pub const PRESENT_MODE_FIFO: i32 = 2;

// VkColorSpaceKHR
pub const COLOR_SPACE_SRGB_NONLINEAR: i32 = 0;

// VkSurfaceTransformFlagBitsKHR
pub const SURFACE_TRANSFORM_IDENTITY: u32 = 0x1;

// VkQueueFlagBits
pub const QUEUE_GRAPHICS: u32 = 0x1;
pub const QUEUE_COMPUTE: u32 = 0x2;
pub const QUEUE_TRANSFER: u32 = 0x4;

// VkPhysicalDeviceType
pub const PHYSICAL_DEVICE_TYPE_INTEGRATED_GPU: i32 = 1;
pub const PHYSICAL_DEVICE_TYPE_DISCRETE_GPU: i32 = 2;

// VkResult
pub const RESULT_SUCCESS: i32 = 0;
pub const RESULT_NOT_READY: i32 = 1;
pub const RESULT_TIMEOUT: i32 = 2;
pub const RESULT_ERROR_INCOMPATIBLE_DISPLAY_KHR: i32 = -1000003001;
pub const RESULT_ERROR_OUT_OF_DATE_KHR: i32 = -1000001004;
pub const RESULT_ERROR_VALIDATION_FAILED_EXT: i32 = -1000011001;

/// Vulkan's boolean true.
pub const TRUE: u32 = 1;

} // verus!
