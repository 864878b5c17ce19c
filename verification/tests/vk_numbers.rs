use vki::vk;

#[test]
fn vulkan_numbers_match_ash() {
    assert_eq!(vk::PIPELINE_STAGE_TOP_OF_PIPE, ash::vk::PipelineStageFlags::TOP_OF_PIPE.as_raw());
    assert_eq!(vk::PIPELINE_STAGE_DRAW_INDIRECT, ash::vk::PipelineStageFlags::DRAW_INDIRECT.as_raw());
    assert_eq!(vk::PIPELINE_STAGE_VERTEX_INPUT, ash::vk::PipelineStageFlags::VERTEX_INPUT.as_raw());
    assert_eq!(vk::PIPELINE_STAGE_VERTEX_SHADER, ash::vk::PipelineStageFlags::VERTEX_SHADER.as_raw());
    assert_eq!(vk::PIPELINE_STAGE_FRAGMENT_SHADER, ash::vk::PipelineStageFlags::FRAGMENT_SHADER.as_raw());
    assert_eq!(vk::PIPELINE_STAGE_EARLY_FRAGMENT_TESTS, ash::vk::PipelineStageFlags::EARLY_FRAGMENT_TESTS.as_raw());
    assert_eq!(vk::PIPELINE_STAGE_LATE_FRAGMENT_TESTS, ash::vk::PipelineStageFlags::LATE_FRAGMENT_TESTS.as_raw());
    assert_eq!(vk::PIPELINE_STAGE_COLOR_ATTACHMENT_OUTPUT, ash::vk::PipelineStageFlags::COLOR_ATTACHMENT_OUTPUT.as_raw());
    assert_eq!(vk::PIPELINE_STAGE_COMPUTE_SHADER, ash::vk::PipelineStageFlags::COMPUTE_SHADER.as_raw());
    assert_eq!(vk::PIPELINE_STAGE_TRANSFER, ash::vk::PipelineStageFlags::TRANSFER.as_raw());
    assert_eq!(vk::PIPELINE_STAGE_BOTTOM_OF_PIPE, ash::vk::PipelineStageFlags::BOTTOM_OF_PIPE.as_raw());
    assert_eq!(vk::PIPELINE_STAGE_HOST, ash::vk::PipelineStageFlags::HOST.as_raw());
    assert_eq!(vk::PIPELINE_STAGE_ALL_COMMANDS, ash::vk::PipelineStageFlags::ALL_COMMANDS.as_raw());
    assert_eq!(vk::ACCESS_INDIRECT_COMMAND_READ, ash::vk::AccessFlags::INDIRECT_COMMAND_READ.as_raw());
    assert_eq!(vk::ACCESS_INDEX_READ, ash::vk::AccessFlags::INDEX_READ.as_raw());
    assert_eq!(vk::ACCESS_VERTEX_ATTRIBUTE_READ, ash::vk::AccessFlags::VERTEX_ATTRIBUTE_READ.as_raw());
    assert_eq!(vk::ACCESS_UNIFORM_READ, ash::vk::AccessFlags::UNIFORM_READ.as_raw());
    assert_eq!(vk::ACCESS_SHADER_READ, ash::vk::AccessFlags::SHADER_READ.as_raw());
    assert_eq!(vk::ACCESS_SHADER_WRITE, ash::vk::AccessFlags::SHADER_WRITE.as_raw());
    assert_eq!(vk::ACCESS_COLOR_ATTACHMENT_READ, ash::vk::AccessFlags::COLOR_ATTACHMENT_READ.as_raw());
    assert_eq!(vk::ACCESS_COLOR_ATTACHMENT_WRITE, ash::vk::AccessFlags::COLOR_ATTACHMENT_WRITE.as_raw());
    assert_eq!(vk::ACCESS_DEPTH_STENCIL_ATTACHMENT_READ, ash::vk::AccessFlags::DEPTH_STENCIL_ATTACHMENT_READ.as_raw());
    assert_eq!(vk::ACCESS_DEPTH_STENCIL_ATTACHMENT_WRITE, ash::vk::AccessFlags::DEPTH_STENCIL_ATTACHMENT_WRITE.as_raw());
    assert_eq!(vk::ACCESS_TRANSFER_READ, ash::vk::AccessFlags::TRANSFER_READ.as_raw());
    assert_eq!(vk::ACCESS_TRANSFER_WRITE, ash::vk::AccessFlags::TRANSFER_WRITE.as_raw());
    assert_eq!(vk::ACCESS_HOST_READ, ash::vk::AccessFlags::HOST_READ.as_raw());
    assert_eq!(vk::ACCESS_HOST_WRITE, ash::vk::AccessFlags::HOST_WRITE.as_raw());
    assert_eq!(vk::BUFFER_USAGE_TRANSFER_SRC, ash::vk::BufferUsageFlags::TRANSFER_SRC.as_raw());
    assert_eq!(vk::BUFFER_USAGE_TRANSFER_DST, ash::vk::BufferUsageFlags::TRANSFER_DST.as_raw());
    assert_eq!(vk::BUFFER_USAGE_STORAGE_TEXEL_BUFFER, ash::vk::BufferUsageFlags::STORAGE_TEXEL_BUFFER.as_raw());
    assert_eq!(vk::BUFFER_USAGE_UNIFORM_BUFFER, ash::vk::BufferUsageFlags::UNIFORM_BUFFER.as_raw());
    assert_eq!(vk::BUFFER_USAGE_STORAGE_BUFFER, ash::vk::BufferUsageFlags::STORAGE_BUFFER.as_raw());
    assert_eq!(vk::BUFFER_USAGE_INDEX_BUFFER, ash::vk::BufferUsageFlags::INDEX_BUFFER.as_raw());
    assert_eq!(vk::BUFFER_USAGE_VERTEX_BUFFER, ash::vk::BufferUsageFlags::VERTEX_BUFFER.as_raw());
    assert_eq!(vk::BUFFER_USAGE_INDIRECT_BUFFER, ash::vk::BufferUsageFlags::INDIRECT_BUFFER.as_raw());
    assert_eq!(vk::IMAGE_USAGE_TRANSFER_SRC, ash::vk::ImageUsageFlags::TRANSFER_SRC.as_raw());
    assert_eq!(vk::IMAGE_USAGE_TRANSFER_DST, ash::vk::ImageUsageFlags::TRANSFER_DST.as_raw());
    assert_eq!(vk::IMAGE_USAGE_SAMPLED, ash::vk::ImageUsageFlags::SAMPLED.as_raw());
    assert_eq!(vk::IMAGE_USAGE_STORAGE, ash::vk::ImageUsageFlags::STORAGE.as_raw());
    assert_eq!(vk::IMAGE_USAGE_COLOR_ATTACHMENT, ash::vk::ImageUsageFlags::COLOR_ATTACHMENT.as_raw());
    assert_eq!(vk::IMAGE_USAGE_DEPTH_STENCIL_ATTACHMENT, ash::vk::ImageUsageFlags::DEPTH_STENCIL_ATTACHMENT.as_raw());
    assert_eq!(vk::IMAGE_ASPECT_COLOR, ash::vk::ImageAspectFlags::COLOR.as_raw());
    assert_eq!(vk::IMAGE_ASPECT_DEPTH, ash::vk::ImageAspectFlags::DEPTH.as_raw());
    assert_eq!(vk::IMAGE_ASPECT_STENCIL, ash::vk::ImageAspectFlags::STENCIL.as_raw());
    assert_eq!(vk::IMAGE_CREATE_CUBE_COMPATIBLE, ash::vk::ImageCreateFlags::CUBE_COMPATIBLE.as_raw());
    assert_eq!(vk::IMAGE_LAYOUT_UNDEFINED, ash::vk::ImageLayout::UNDEFINED.as_raw());
    assert_eq!(vk::IMAGE_LAYOUT_GENERAL, ash::vk::ImageLayout::GENERAL.as_raw());
    assert_eq!(vk::IMAGE_LAYOUT_COLOR_ATTACHMENT_OPTIMAL, ash::vk::ImageLayout::COLOR_ATTACHMENT_OPTIMAL.as_raw());
    assert_eq!(vk::IMAGE_LAYOUT_DEPTH_STENCIL_ATTACHMENT_OPTIMAL, ash::vk::ImageLayout::DEPTH_STENCIL_ATTACHMENT_OPTIMAL.as_raw());
    assert_eq!(vk::IMAGE_LAYOUT_SHADER_READ_ONLY_OPTIMAL, ash::vk::ImageLayout::SHADER_READ_ONLY_OPTIMAL.as_raw());
    assert_eq!(vk::IMAGE_LAYOUT_TRANSFER_SRC_OPTIMAL, ash::vk::ImageLayout::TRANSFER_SRC_OPTIMAL.as_raw());
    assert_eq!(vk::IMAGE_LAYOUT_TRANSFER_DST_OPTIMAL, ash::vk::ImageLayout::TRANSFER_DST_OPTIMAL.as_raw());
    assert_eq!(vk::IMAGE_LAYOUT_PRESENT_SRC_KHR, ash::vk::ImageLayout::PRESENT_SRC_KHR.as_raw());
    assert_eq!(vk::FORMAT_UNDEFINED, ash::vk::Format::UNDEFINED.as_raw());
    assert_eq!(vk::FORMAT_R8_UNORM, ash::vk::Format::R8_UNORM.as_raw());
    assert_eq!(vk::FORMAT_R8_SNORM, ash::vk::Format::R8_SNORM.as_raw());
    assert_eq!(vk::FORMAT_R8_UINT, ash::vk::Format::R8_UINT.as_raw());
    assert_eq!(vk::FORMAT_R8_SINT, ash::vk::Format::R8_SINT.as_raw());
    assert_eq!(vk::FORMAT_R8_SRGB, ash::vk::Format::R8_SRGB.as_raw());
    assert_eq!(vk::FORMAT_R8G8_UNORM, ash::vk::Format::R8G8_UNORM.as_raw());
    assert_eq!(vk::FORMAT_R8G8_SNORM, ash::vk::Format::R8G8_SNORM.as_raw());
    assert_eq!(vk::FORMAT_R8G8_UINT, ash::vk::Format::R8G8_UINT.as_raw());
    assert_eq!(vk::FORMAT_R8G8_SINT, ash::vk::Format::R8G8_SINT.as_raw());
    assert_eq!(vk::FORMAT_R8G8B8A8_UNORM, ash::vk::Format::R8G8B8A8_UNORM.as_raw());
    assert_eq!(vk::FORMAT_R8G8B8A8_SNORM, ash::vk::Format::R8G8B8A8_SNORM.as_raw());
    assert_eq!(vk::FORMAT_R8G8B8A8_UINT, ash::vk::Format::R8G8B8A8_UINT.as_raw());
    assert_eq!(vk::FORMAT_R8G8B8A8_SINT, ash::vk::Format::R8G8B8A8_SINT.as_raw());
    assert_eq!(vk::FORMAT_B8G8R8A8_UNORM, ash::vk::Format::B8G8R8A8_UNORM.as_raw());
    assert_eq!(vk::FORMAT_B8G8R8A8_SRGB, ash::vk::Format::B8G8R8A8_SRGB.as_raw());
    assert_eq!(vk::FORMAT_R16G16_UNORM, ash::vk::Format::R16G16_UNORM.as_raw());
    assert_eq!(vk::FORMAT_R16G16_SNORM, ash::vk::Format::R16G16_SNORM.as_raw());
    assert_eq!(vk::FORMAT_R16G16_UINT, ash::vk::Format::R16G16_UINT.as_raw());
    assert_eq!(vk::FORMAT_R16G16_SINT, ash::vk::Format::R16G16_SINT.as_raw());
    assert_eq!(vk::FORMAT_R16G16_SFLOAT, ash::vk::Format::R16G16_SFLOAT.as_raw());
    assert_eq!(vk::FORMAT_R16G16B16A16_UNORM, ash::vk::Format::R16G16B16A16_UNORM.as_raw());
    assert_eq!(vk::FORMAT_R16G16B16A16_SNORM, ash::vk::Format::R16G16B16A16_SNORM.as_raw());
    assert_eq!(vk::FORMAT_R16G16B16A16_UINT, ash::vk::Format::R16G16B16A16_UINT.as_raw());
    assert_eq!(vk::FORMAT_R16G16B16A16_SINT, ash::vk::Format::R16G16B16A16_SINT.as_raw());
    assert_eq!(vk::FORMAT_R16G16B16A16_SFLOAT, ash::vk::Format::R16G16B16A16_SFLOAT.as_raw());
    assert_eq!(vk::FORMAT_R32_UINT, ash::vk::Format::R32_UINT.as_raw());
    assert_eq!(vk::FORMAT_R32_SINT, ash::vk::Format::R32_SINT.as_raw());
    assert_eq!(vk::FORMAT_R32_SFLOAT, ash::vk::Format::R32_SFLOAT.as_raw());
    assert_eq!(vk::FORMAT_R32G32_UINT, ash::vk::Format::R32G32_UINT.as_raw());
    assert_eq!(vk::FORMAT_R32G32_SINT, ash::vk::Format::R32G32_SINT.as_raw());
    assert_eq!(vk::FORMAT_R32G32_SFLOAT, ash::vk::Format::R32G32_SFLOAT.as_raw());
    assert_eq!(vk::FORMAT_R32G32B32_UINT, ash::vk::Format::R32G32B32_UINT.as_raw());
    assert_eq!(vk::FORMAT_R32G32B32_SINT, ash::vk::Format::R32G32B32_SINT.as_raw());
    assert_eq!(vk::FORMAT_R32G32B32_SFLOAT, ash::vk::Format::R32G32B32_SFLOAT.as_raw());
    assert_eq!(vk::FORMAT_R32G32B32A32_UINT, ash::vk::Format::R32G32B32A32_UINT.as_raw());
    assert_eq!(vk::FORMAT_R32G32B32A32_SINT, ash::vk::Format::R32G32B32A32_SINT.as_raw());
    assert_eq!(vk::FORMAT_R32G32B32A32_SFLOAT, ash::vk::Format::R32G32B32A32_SFLOAT.as_raw());
    assert_eq!(vk::FORMAT_D32_SFLOAT, ash::vk::Format::D32_SFLOAT.as_raw());
    assert_eq!(vk::FORMAT_D32_SFLOAT_S8_UINT, ash::vk::Format::D32_SFLOAT_S8_UINT.as_raw());
    assert_eq!(vk::IMAGE_TYPE_1D, ash::vk::ImageType::TYPE_1D.as_raw());
    assert_eq!(vk::IMAGE_TYPE_2D, ash::vk::ImageType::TYPE_2D.as_raw());
    assert_eq!(vk::IMAGE_TYPE_3D, ash::vk::ImageType::TYPE_3D.as_raw());
    assert_eq!(vk::IMAGE_VIEW_TYPE_1D, ash::vk::ImageViewType::TYPE_1D.as_raw());
    assert_eq!(vk::IMAGE_VIEW_TYPE_2D, ash::vk::ImageViewType::TYPE_2D.as_raw());
    assert_eq!(vk::IMAGE_VIEW_TYPE_3D, ash::vk::ImageViewType::TYPE_3D.as_raw());
    assert_eq!(vk::IMAGE_VIEW_TYPE_CUBE, ash::vk::ImageViewType::CUBE.as_raw());
    assert_eq!(vk::DESCRIPTOR_TYPE_SAMPLER, ash::vk::DescriptorType::SAMPLER.as_raw());
    assert_eq!(vk::DESCRIPTOR_TYPE_SAMPLED_IMAGE, ash::vk::DescriptorType::SAMPLED_IMAGE.as_raw());
    assert_eq!(vk::DESCRIPTOR_TYPE_STORAGE_TEXEL_BUFFER, ash::vk::DescriptorType::STORAGE_TEXEL_BUFFER.as_raw());
    assert_eq!(vk::DESCRIPTOR_TYPE_UNIFORM_BUFFER, ash::vk::DescriptorType::UNIFORM_BUFFER.as_raw());
    assert_eq!(vk::DESCRIPTOR_TYPE_STORAGE_BUFFER, ash::vk::DescriptorType::STORAGE_BUFFER.as_raw());
    assert_eq!(vk::DESCRIPTOR_TYPE_UNIFORM_BUFFER_DYNAMIC, ash::vk::DescriptorType::UNIFORM_BUFFER_DYNAMIC.as_raw());
    assert_eq!(vk::DESCRIPTOR_TYPE_STORAGE_BUFFER_DYNAMIC, ash::vk::DescriptorType::STORAGE_BUFFER_DYNAMIC.as_raw());
    assert_eq!(vk::SHADER_STAGE_VERTEX, ash::vk::ShaderStageFlags::VERTEX.as_raw());
    assert_eq!(vk::SHADER_STAGE_FRAGMENT, ash::vk::ShaderStageFlags::FRAGMENT.as_raw());
    assert_eq!(vk::SHADER_STAGE_COMPUTE, ash::vk::ShaderStageFlags::COMPUTE.as_raw());
    assert_eq!(vk::PRIMITIVE_TOPOLOGY_POINT_LIST, ash::vk::PrimitiveTopology::POINT_LIST.as_raw());
    assert_eq!(vk::PRIMITIVE_TOPOLOGY_LINE_LIST, ash::vk::PrimitiveTopology::LINE_LIST.as_raw());
    assert_eq!(vk::PRIMITIVE_TOPOLOGY_LINE_STRIP, ash::vk::PrimitiveTopology::LINE_STRIP.as_raw());
    assert_eq!(vk::PRIMITIVE_TOPOLOGY_TRIANGLE_LIST, ash::vk::PrimitiveTopology::TRIANGLE_LIST.as_raw());
    assert_eq!(vk::PRIMITIVE_TOPOLOGY_TRIANGLE_STRIP, ash::vk::PrimitiveTopology::TRIANGLE_STRIP.as_raw());
    assert_eq!(vk::BLEND_FACTOR_ZERO, ash::vk::BlendFactor::ZERO.as_raw());
    assert_eq!(vk::BLEND_FACTOR_ONE, ash::vk::BlendFactor::ONE.as_raw());
    assert_eq!(vk::BLEND_FACTOR_SRC_COLOR, ash::vk::BlendFactor::SRC_COLOR.as_raw());
    assert_eq!(vk::BLEND_FACTOR_ONE_MINUS_SRC_COLOR, ash::vk::BlendFactor::ONE_MINUS_SRC_COLOR.as_raw());
    assert_eq!(vk::BLEND_FACTOR_DST_COLOR, ash::vk::BlendFactor::DST_COLOR.as_raw());
    assert_eq!(vk::BLEND_FACTOR_ONE_MINUS_DST_COLOR, ash::vk::BlendFactor::ONE_MINUS_DST_COLOR.as_raw());
    assert_eq!(vk::BLEND_FACTOR_SRC_ALPHA, ash::vk::BlendFactor::SRC_ALPHA.as_raw());
    assert_eq!(vk::BLEND_FACTOR_ONE_MINUS_SRC_ALPHA, ash::vk::BlendFactor::ONE_MINUS_SRC_ALPHA.as_raw());
    assert_eq!(vk::BLEND_FACTOR_DST_ALPHA, ash::vk::BlendFactor::DST_ALPHA.as_raw());
    assert_eq!(vk::BLEND_FACTOR_ONE_MINUS_DST_ALPHA, ash::vk::BlendFactor::ONE_MINUS_DST_ALPHA.as_raw());
    assert_eq!(vk::BLEND_FACTOR_CONSTANT_COLOR, ash::vk::BlendFactor::CONSTANT_COLOR.as_raw());
    assert_eq!(vk::BLEND_FACTOR_ONE_MINUS_CONSTANT_COLOR, ash::vk::BlendFactor::ONE_MINUS_CONSTANT_COLOR.as_raw());
    assert_eq!(vk::BLEND_FACTOR_SRC_ALPHA_SATURATE, ash::vk::BlendFactor::SRC_ALPHA_SATURATE.as_raw());
    assert_eq!(vk::BLEND_OP_ADD, ash::vk::BlendOp::ADD.as_raw());
    assert_eq!(vk::BLEND_OP_SUBTRACT, ash::vk::BlendOp::SUBTRACT.as_raw());
    assert_eq!(vk::BLEND_OP_REVERSE_SUBTRACT, ash::vk::BlendOp::REVERSE_SUBTRACT.as_raw());
    assert_eq!(vk::BLEND_OP_MIN, ash::vk::BlendOp::MIN.as_raw());
    assert_eq!(vk::BLEND_OP_MAX, ash::vk::BlendOp::MAX.as_raw());
    assert_eq!(vk::COLOR_COMPONENT_R, ash::vk::ColorComponentFlags::R.as_raw());
    assert_eq!(vk::COLOR_COMPONENT_G, ash::vk::ColorComponentFlags::G.as_raw());
    assert_eq!(vk::COLOR_COMPONENT_B, ash::vk::ColorComponentFlags::B.as_raw());
    assert_eq!(vk::COLOR_COMPONENT_A, ash::vk::ColorComponentFlags::A.as_raw());
    assert_eq!(vk::STENCIL_OP_KEEP, ash::vk::StencilOp::KEEP.as_raw());
    assert_eq!(vk::STENCIL_OP_ZERO, ash::vk::StencilOp::ZERO.as_raw());
    assert_eq!(vk::STENCIL_OP_REPLACE, ash::vk::StencilOp::REPLACE.as_raw());
    assert_eq!(vk::STENCIL_OP_INCREMENT_AND_CLAMP, ash::vk::StencilOp::INCREMENT_AND_CLAMP.as_raw());
    assert_eq!(vk::STENCIL_OP_DECREMENT_AND_CLAMP, ash::vk::StencilOp::DECREMENT_AND_CLAMP.as_raw());
    assert_eq!(vk::STENCIL_OP_INVERT, ash::vk::StencilOp::INVERT.as_raw());
    assert_eq!(vk::STENCIL_OP_INCREMENT_AND_WRAP, ash::vk::StencilOp::INCREMENT_AND_WRAP.as_raw());
    assert_eq!(vk::STENCIL_OP_DECREMENT_AND_WRAP, ash::vk::StencilOp::DECREMENT_AND_WRAP.as_raw());
    assert_eq!(vk::COMPARE_OP_NEVER, ash::vk::CompareOp::NEVER.as_raw());
    assert_eq!(vk::COMPARE_OP_LESS, ash::vk::CompareOp::LESS.as_raw());
    assert_eq!(vk::COMPARE_OP_EQUAL, ash::vk::CompareOp::EQUAL.as_raw());
    assert_eq!(vk::COMPARE_OP_LESS_OR_EQUAL, ash::vk::CompareOp::LESS_OR_EQUAL.as_raw());
    assert_eq!(vk::COMPARE_OP_GREATER, ash::vk::CompareOp::GREATER.as_raw());
    assert_eq!(vk::COMPARE_OP_NOT_EQUAL, ash::vk::CompareOp::NOT_EQUAL.as_raw());
    assert_eq!(vk::COMPARE_OP_GREATER_OR_EQUAL, ash::vk::CompareOp::GREATER_OR_EQUAL.as_raw());
    assert_eq!(vk::COMPARE_OP_ALWAYS, ash::vk::CompareOp::ALWAYS.as_raw());
    assert_eq!(vk::CULL_MODE_NONE, ash::vk::CullModeFlags::NONE.as_raw());
    assert_eq!(vk::CULL_MODE_FRONT, ash::vk::CullModeFlags::FRONT.as_raw());
    assert_eq!(vk::CULL_MODE_BACK, ash::vk::CullModeFlags::BACK.as_raw());
    assert_eq!(vk::FRONT_FACE_COUNTER_CLOCKWISE, ash::vk::FrontFace::COUNTER_CLOCKWISE.as_raw());
    assert_eq!(vk::FRONT_FACE_CLOCKWISE, ash::vk::FrontFace::CLOCKWISE.as_raw());
    assert_eq!(vk::VERTEX_INPUT_RATE_VERTEX, ash::vk::VertexInputRate::VERTEX.as_raw());
    assert_eq!(vk::VERTEX_INPUT_RATE_INSTANCE, ash::vk::VertexInputRate::INSTANCE.as_raw());
    assert_eq!(vk::SAMPLER_ADDRESS_MODE_REPEAT, ash::vk::SamplerAddressMode::REPEAT.as_raw());
    assert_eq!(vk::SAMPLER_ADDRESS_MODE_MIRRORED_REPEAT, ash::vk::SamplerAddressMode::MIRRORED_REPEAT.as_raw());
    assert_eq!(vk::SAMPLER_ADDRESS_MODE_CLAMP_TO_EDGE, ash::vk::SamplerAddressMode::CLAMP_TO_EDGE.as_raw());
    assert_eq!(vk::FILTER_NEAREST, ash::vk::Filter::NEAREST.as_raw());
    assert_eq!(vk::FILTER_LINEAR, ash::vk::Filter::LINEAR.as_raw());
    assert_eq!(vk::SAMPLER_MIPMAP_MODE_NEAREST, ash::vk::SamplerMipmapMode::NEAREST.as_raw());
    assert_eq!(vk::SAMPLER_MIPMAP_MODE_LINEAR, ash::vk::SamplerMipmapMode::LINEAR.as_raw());
    assert_eq!(vk::ATTACHMENT_LOAD_OP_LOAD, ash::vk::AttachmentLoadOp::LOAD.as_raw());
    assert_eq!(vk::ATTACHMENT_LOAD_OP_CLEAR, ash::vk::AttachmentLoadOp::CLEAR.as_raw());
    assert_eq!(vk::ATTACHMENT_LOAD_OP_DONT_CARE, ash::vk::AttachmentLoadOp::DONT_CARE.as_raw());
    assert_eq!(vk::ATTACHMENT_STORE_OP_STORE, ash::vk::AttachmentStoreOp::STORE.as_raw());
    assert_eq!(vk::PRESENT_MODE_MAILBOX, ash::vk::PresentModeKHR::MAILBOX.as_raw());
    assert_eq!(vk::PRESENT_MODE_FIFO, ash::vk::PresentModeKHR::FIFO.as_raw());
    assert_eq!(vk::COLOR_SPACE_SRGB_NONLINEAR, ash::vk::ColorSpaceKHR::SRGB_NONLINEAR.as_raw());
    assert_eq!(vk::SURFACE_TRANSFORM_IDENTITY, ash::vk::SurfaceTransformFlagsKHR::IDENTITY.as_raw());
    assert_eq!(vk::QUEUE_GRAPHICS, ash::vk::QueueFlags::GRAPHICS.as_raw());
    assert_eq!(vk::QUEUE_COMPUTE, ash::vk::QueueFlags::COMPUTE.as_raw());
    assert_eq!(vk::QUEUE_TRANSFER, ash::vk::QueueFlags::TRANSFER.as_raw());
    assert_eq!(vk::PHYSICAL_DEVICE_TYPE_INTEGRATED_GPU, ash::vk::PhysicalDeviceType::INTEGRATED_GPU.as_raw());
    assert_eq!(vk::PHYSICAL_DEVICE_TYPE_DISCRETE_GPU, ash::vk::PhysicalDeviceType::DISCRETE_GPU.as_raw());
    assert_eq!(vk::RESULT_SUCCESS, ash::vk::Result::SUCCESS.as_raw());
    assert_eq!(vk::RESULT_NOT_READY, ash::vk::Result::NOT_READY.as_raw());
    assert_eq!(vk::RESULT_TIMEOUT, ash::vk::Result::TIMEOUT.as_raw());
    assert_eq!(vk::RESULT_ERROR_INCOMPATIBLE_DISPLAY_KHR, ash::vk::Result::ERROR_INCOMPATIBLE_DISPLAY_KHR.as_raw());
    assert_eq!(vk::RESULT_ERROR_OUT_OF_DATE_KHR, ash::vk::Result::ERROR_OUT_OF_DATE_KHR.as_raw());
    assert_eq!(vk::RESULT_ERROR_VALIDATION_FAILED_EXT, ash::vk::Result::ERROR_VALIDATION_FAILED_EXT.as_raw());
    assert_eq!(vk::ATTACHMENT_UNUSED, ash::vk::ATTACHMENT_UNUSED);
    assert_eq!(vk::TRUE, ash::vk::TRUE);
}
