use vstd::prelude::*;

pub mod adapter;
pub mod binding;
pub mod buffer;
pub mod command;
pub mod command_encoder;
pub mod device;
pub mod error;
pub mod fence;
pub mod fenced_deleter;
pub mod flags;
pub mod pass_resource_usage;
pub mod pipeline;
pub mod render_pass;
pub mod resources;
pub mod sampler;
pub mod serial;
pub mod shader;
pub mod surface;
pub mod swapchain;
pub mod texture;
pub mod types;
pub mod util;
pub mod vk;

verus! {
}
