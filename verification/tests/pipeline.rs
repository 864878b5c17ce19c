use vki::resources::{Adapter, Device};
use vki::types::Extensions;
use vki::flags::{ColorWriteFlags, ShaderStageFlags, COLOR_WRITE_ALL, SHADER_STAGE_COMPUTE, SHADER_STAGE_VERTEX};
use vki::pipeline::{
    RasterizationStateDescriptor,
    RenderPipelineDescriptor,
};
use vki::render_pass::ColorInfo;
use vki::resources::{
    BindGroupLayout, ComputePipelineDescriptor, PipelineLayout, PipelineLayoutDescriptor, PipelineStageDescriptor,
    ShaderModule,
};
use vki::types::{
    BindGroupLayoutBinding, BindingType, BlendDescriptor, BlendFactor, BlendOperation, ColorStateDescriptor,
    CompareFunction, CullMode, DepthStencilStateDescriptor, FrontFace, IndexFormat, InputStateDescriptor,
    InputStepMode, LoadOp, PrimitiveTopology, StencilOperation, StencilStateFaceDescriptor, TextureFormat,
    VertexAttributeDescriptor, VertexFormat, VertexInputDescriptor,
};
use vki::vk;

fn device() -> Device {
    Device {
        handle: 1,
        adapter: Adapter {
            physical_device: 2,
            name: String::from("gpu"),
            extensions: Extensions { anisotropic_filtering: false },
            device_type: vk::PHYSICAL_DEVICE_TYPE_DISCRETE_GPU,
        },
    }
}

#[test]
fn create_pipeline_layout() {
    let layout = BindGroupLayout {
        handle: 5,
        bindings: vec![
            BindGroupLayoutBinding {
                binding: 0,
                visibility: ShaderStageFlags { bits: SHADER_STAGE_VERTEX },
                binding_type: BindingType::UniformBuffer,
            },
            BindGroupLayoutBinding {
                binding: 1,
                visibility: ShaderStageFlags { bits: 2 },
                binding_type: BindingType::Sampler,
            },
            BindGroupLayoutBinding {
                binding: 2,
                visibility: ShaderStageFlags { bits: 2 },
                binding_type: BindingType::SampledTexture,
            },
        ],
    };
    let descriptor = PipelineLayoutDescriptor { bind_group_layouts: vec![layout] };
    assert_eq!(device().create_pipeline_layout(&descriptor), vec![5]);
}

#[test]
fn create_compute_pipeline() {
    let descriptor = ComputePipelineDescriptor {
        layout: PipelineLayout { handle: 3 },
        compute_stage: PipelineStageDescriptor { module: ShaderModule { handle: 4 }, entry_point: String::from("main") },
    };
    let plan = device().create_compute_pipeline(&descriptor).unwrap();
    assert_eq!((plan.layout, plan.module, plan.stage), (3, 4, vk::SHADER_STAGE_COMPUTE));
    let _ = SHADER_STAGE_COMPUTE;
}

#[test]
fn entry_points_with_nul_are_refused() {
    let descriptor = ComputePipelineDescriptor {
        layout: PipelineLayout { handle: 3 },
        compute_stage: PipelineStageDescriptor { module: ShaderModule { handle: 4 }, entry_point: String::from("ma\0in") },
    };
    let err = device().create_compute_pipeline(&descriptor).unwrap_err();
    assert_eq!(err.to_code(), vk::RESULT_ERROR_VALIDATION_FAILED_EXT);
}

fn render_pipeline_descriptor() -> RenderPipelineDescriptor {
    let color_replace = BlendDescriptor {
        src_factor: BlendFactor::One,
        dst_factor: BlendFactor::Zero,
        operation: BlendOperation::Add,
    };
    RenderPipelineDescriptor {
        layout: PipelineLayout { handle: 3 },
        primitive_topology: PrimitiveTopology::TriangleList,
        vertex_stage: PipelineStageDescriptor { entry_point: String::from("main"), module: ShaderModule { handle: 10 } },
        fragment_stage: PipelineStageDescriptor { entry_point: String::from("main"), module: ShaderModule { handle: 11 } },
        input_state: InputStateDescriptor {
            index_format: IndexFormat::U16,
            inputs: vec![VertexInputDescriptor { input_slot: 0, step_mode: InputStepMode::Vertex, stride: 24 }],
            attributes: vec![
                VertexAttributeDescriptor { input_slot: 0, format: VertexFormat::Float3, offset: 0, shader_location: 0 },
                VertexAttributeDescriptor { input_slot: 0, format: VertexFormat::Float3, offset: 12, shader_location: 1 },
            ],
        },
        color_states: vec![ColorStateDescriptor {
            format: TextureFormat::B8G8R8A8Unorm,
            write_mask: ColorWriteFlags { bits: COLOR_WRITE_ALL },
            color_blend: color_replace,
            alpha_blend: color_replace,
        }],
        depth_stencil_state: None,
        rasterization_state: RasterizationStateDescriptor {
            front_face: FrontFace::Ccw,
            cull_mode: CullMode::Back,
            depth_bias: 0,
            depth_bias_slope_scale_bits: 0.0f32.to_bits(),
            depth_bias_clamp_bits: 0.0f32.to_bits(),
        },
        sample_count: 1,
    }
}

#[test]
fn create_render_pipeline() {
    let plan = device().create_render_pipeline(&render_pipeline_descriptor()).unwrap();
    assert_eq!(plan.topology, vk::PRIMITIVE_TOPOLOGY_TRIANGLE_LIST);
    assert!(plan.primitive_restart_enable);
    assert_eq!(plan.samples, 1);
    assert_eq!((plan.vertex_module, plan.fragment_module, plan.layout), (10, 11, 3));
    assert!(!plan.depth_stencil.depth_test_enable && !plan.depth_stencil.stencil_test_enable);
    assert_eq!(plan.rasterization.cull_mode, vk::CULL_MODE_BACK);
    assert!(!plan.rasterization.depth_bias_enable);
    assert_eq!(plan.color_blend_attachments.len(), 1);
    assert!(!plan.color_blend_attachments[0].blend_enable);
    assert_eq!(plan.color_blend_attachments[0].color_write_mask, 0xf);
    assert_eq!(plan.vertex_attributes.len(), 2);
    assert_eq!(plan.vertex_attributes[1].format, vk::FORMAT_R32G32B32_SFLOAT);
    assert_eq!(plan.vertex_attributes[1].offset, 12);
    assert_eq!(plan.vertex_bindings[0].stride, 24);
    assert_eq!(plan.vertex_bindings[0].input_rate, vk::VERTEX_INPUT_RATE_VERTEX);
    assert_eq!(
        plan.render_pass_query.color_targets(),
        &[ColorInfo { format: TextureFormat::B8G8R8A8Unorm, load_op: LoadOp::Load, has_resolve_target: false }]
    );
    assert!(plan.render_pass_query.depth_stencil.is_none());
    assert_eq!(plan.render_pass_query.sample_count, 1);
}

#[test]
fn render_pipeline_with_depth_and_blending() {
    let mut descriptor = render_pipeline_descriptor();
    descriptor.color_states[0].alpha_blend.dst_factor = BlendFactor::OneMinusSrcAlpha;
    let keep = StencilStateFaceDescriptor {
        compare: CompareFunction::Always,
        fail_op: StencilOperation::Keep,
        depth_fail_op: StencilOperation::Keep,
        pass_op: StencilOperation::Keep,
    };
    descriptor.depth_stencil_state = Some(DepthStencilStateDescriptor {
        format: TextureFormat::D32Float,
        depth_write_enabled: true,
        depth_compare: CompareFunction::Less,
        stencil_front: keep,
        stencil_back: StencilStateFaceDescriptor { pass_op: StencilOperation::Replace, ..keep },
        stencil_read_mask: 0xff,
        stencil_write_mask: 0x0f,
    });
    descriptor.sample_count = 4;
    let plan = device().create_render_pipeline(&descriptor).unwrap();
    assert!(plan.color_blend_attachments[0].blend_enable);
    assert_eq!(plan.color_blend_attachments[0].dst_alpha_blend_factor, vk::BLEND_FACTOR_ONE_MINUS_SRC_ALPHA);
    assert!(plan.depth_stencil.depth_test_enable && plan.depth_stencil.stencil_test_enable);
    assert_eq!(plan.depth_stencil.depth_compare_op, vk::COMPARE_OP_LESS);
    assert_eq!(plan.depth_stencil.back.pass_op, vk::STENCIL_OP_REPLACE);
    assert_eq!((plan.depth_stencil.front.compare_mask, plan.depth_stencil.front.write_mask), (0xff, 0x0f));
    assert_eq!(plan.samples, 4);
    let ds = plan.render_pass_query.depth_stencil.unwrap();
    assert_eq!((ds.format, ds.depth_load_op, ds.stencil_load_op), (TextureFormat::D32Float, LoadOp::Load, LoadOp::Load));
}

#[test]
fn render_pipeline_refuses_unknown_sample_counts() {
    let mut descriptor = render_pipeline_descriptor();
    descriptor.sample_count = 3;
    assert!(device().create_render_pipeline(&descriptor).is_err());
    let mut descriptor = render_pipeline_descriptor();
    descriptor.fragment_stage.entry_point = String::from("\0");
    assert_eq!(device().create_render_pipeline(&descriptor).unwrap_err().to_code(), vk::RESULT_ERROR_VALIDATION_FAILED_EXT);
}
