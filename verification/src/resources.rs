use vstd::prelude::*;

use crate::flags::{BufferUsageFlags, TextureUsageFlags, TEXTURE_USAGE_OUTPUT_ATTACHMENT};
use crate::types::{
    BindGroupLayoutBinding, BufferDescriptor, Extensions, PowerPreference, RequestAdapterOptions,
    AdapterOptions, TextureDescriptor, TextureFormat, TextureViewDescriptor,
};

verus! {

// Objects that live on the GPU are known to the library by their raw Vulkan
// handle and by the descriptor they were created with.

#[derive(Clone, Copy, Debug, PartialEq, Eq, Structural, Hash)]
pub struct Instance {
    pub handle: u64,
}

/// A physical device.
#[derive(Clone, Debug)]
pub struct Adapter {
    pub physical_device: u64,
    pub name: String,
    pub extensions: Extensions,
    /// The Vulkan physical device type.
    pub device_type: i32,
}

#[derive(Clone, Copy, Debug, PartialEq, Eq, Structural, Hash)]
pub struct Surface {
    pub handle: u64,
}

#[derive(Clone, Copy, Debug, PartialEq, Eq, Structural, Hash)]
pub struct DeviceDescriptor {
    pub extensions: Extensions,
    /// The queue created for the device will support presenting to this surface.
    pub surface_support: Option<Surface>,
}

#[derive(Clone, Debug)]
pub struct Device {
    pub handle: u64,
    pub adapter: Adapter,
}

#[derive(Clone, Copy, Debug, PartialEq, Eq, Structural, Hash)]
pub struct SwapchainDescriptor {
    pub surface: Surface,
    pub format: TextureFormat,
    pub usage: TextureUsageFlags,
}

/// A swapchain with the textures of its images and a view of each.
#[derive(Clone, Debug)]
pub struct Swapchain {
    pub handle: u64,
    pub textures: Vec<Texture>,
    pub views: Vec<TextureView>,
}

/// An image acquired from a swapchain, to render to and then present.
#[derive(Clone, Copy, Debug, PartialEq, Eq, Structural, Hash)]
pub struct SwapchainImage {
    pub swapchain: u64,
    pub image_index: u32,
    pub texture: Texture,
    pub view: TextureView,
}

#[derive(Clone, Copy, Debug, PartialEq, Eq, Structural, Hash)]
pub struct Buffer {
    pub handle: u64,
    pub descriptor: BufferDescriptor,
}

#[derive(Clone, Copy, Debug, PartialEq, Eq, Structural, Hash)]
pub struct BufferView {
    pub handle: u64,
    pub buffer: Buffer,
}

#[derive(Clone, Copy, Debug, PartialEq, Eq, Structural, Hash)]
pub struct Texture {
    pub handle: u64,
    pub descriptor: TextureDescriptor,
}

#[derive(Clone, Copy, Debug, PartialEq, Eq, Structural, Hash)]
pub struct TextureView {
    pub handle: u64,
    pub texture: Texture,
    pub descriptor: TextureViewDescriptor,
}

#[derive(Clone, Copy, Debug, PartialEq, Eq, Structural, Hash)]
pub struct Sampler {
    pub handle: u64,
}

/// The bindings a bind group layout is created with.
#[derive(Clone, Copy, Debug)]
pub struct BindGroupLayoutDescriptor<'a> {
    pub bindings: &'a [BindGroupLayoutBinding],
}

#[derive(Clone, Debug)]
pub struct BindGroupLayout {
    pub handle: u64,
    pub bindings: Vec<BindGroupLayoutBinding>,
}

/// A byte range `start..end` of a buffer.
#[derive(Clone, Copy, Debug, PartialEq, Eq, Structural, Hash)]
pub struct BufferRange {
    pub start: u64,
    pub end: u64,
}

#[derive(Clone, Copy, Debug, PartialEq, Eq, Structural, Hash)]
pub enum BindingResource {
    Sampler(Sampler),
    TextureView(TextureView),
    Buffer(Buffer, BufferRange),
    BufferView(BufferView),
}

#[derive(Clone, Copy, Debug, PartialEq, Eq, Structural, Hash)]
pub struct BindGroupBinding {
    pub binding: u32,
    pub resource: BindingResource,
}

#[derive(Clone, Debug)]
pub struct BindGroupDescriptor {
    pub layout: BindGroupLayout,
    pub bindings: Vec<BindGroupBinding>,
}

#[derive(Clone, Debug)]
pub struct BindGroup {
    pub handle: u64,
    pub descriptor_pool: u64,
    pub layout: BindGroupLayout,
    pub bindings: Vec<BindGroupBinding>,
}

#[derive(Clone, Copy, Debug, PartialEq, Eq, Structural, Hash)]
pub struct PipelineLayout {
    pub handle: u64,
}

#[derive(Clone, Debug)]
pub struct PipelineLayoutDescriptor {
    pub bind_group_layouts: Vec<BindGroupLayout>,
}

#[derive(Clone, Copy, Debug, PartialEq, Eq, Structural, Hash)]
pub struct ShaderModule {
    pub handle: u64,
}

#[derive(Clone, Debug)]
pub struct ShaderModuleDescriptor {
    pub code: Vec<u8>,
}

#[derive(Clone, Debug)]
pub struct PipelineStageDescriptor {
    pub module: ShaderModule,
    pub entry_point: String,
}

#[derive(Clone, Debug)]
pub struct ComputePipelineDescriptor {
    pub layout: PipelineLayout,
    pub compute_stage: PipelineStageDescriptor,
}

#[derive(Clone, Copy, Debug, PartialEq, Eq, Structural, Hash)]
pub struct ComputePipeline {
    pub handle: u64,
    pub layout: PipelineLayout,
}

#[derive(Clone, Copy, Debug, PartialEq, Eq, Structural, Hash)]
pub struct RenderPipeline {
    pub handle: u64,
    pub layout: PipelineLayout,
}

impl Adapter {
    pub fn name(&self) -> (r: &str)
        ensures
            r@ == self.name@,
    {
        self.name.as_str()
    }

    pub fn extensions(&self) -> (r: &Extensions)
        ensures
            *r == self.extensions,
    {
        &self.extensions
    }
}

impl Device {
    /// The adapter the device was created from.
    pub fn adapter(&self) -> (r: Adapter)
        ensures
            r.physical_device == self.adapter.physical_device,
            r.name@ == self.adapter.name@,
            r.extensions == self.adapter.extensions,
            r.device_type == self.adapter.device_type,
    {
        Adapter {
            physical_device: self.adapter.physical_device,
            name: self.adapter.name.clone(),
            extensions: self.adapter.extensions,
            device_type: self.adapter.device_type,
        }
    }
}

impl RequestAdapterOptions {
    /// Options that prefer a high performance adapter.
    pub fn new() -> (r: AdapterOptions)
        ensures
            r.power_preference == PowerPreference::HighPerformance,
    {
        RequestAdapterOptions { power_preference: PowerPreference::HighPerformance }
    }

    pub fn high_performance(self) -> (r: Self)
        ensures
            r.power_preference == PowerPreference::HighPerformance,
    {
        RequestAdapterOptions { power_preference: PowerPreference::HighPerformance }
    }

    pub fn low_power(self) -> (r: Self)
        ensures
            r.power_preference == PowerPreference::LowPower,
    {
        RequestAdapterOptions { power_preference: PowerPreference::LowPower }
    }
}

impl DeviceDescriptor {
    /// The descriptor, asking for a queue that can present to `surface`.
    pub fn with_surface_support(self, surface: &Surface) -> (r: DeviceDescriptor)
        ensures
            r.extensions == self.extensions,
            r.surface_support == Some(*surface),
    {
        DeviceDescriptor { extensions: self.extensions, surface_support: Some(*surface) }
    }
}

impl SwapchainDescriptor {
    /// A swapchain of sRGB BGRA8 images used as render targets.
    pub fn default_with_surface(surface: &Surface) -> (r: SwapchainDescriptor)
        ensures
            r.surface == *surface,
            r.format == TextureFormat::B8G8R8A8UnormSRGB,
            r.usage.bits == TEXTURE_USAGE_OUTPUT_ATTACHMENT,
    {
        SwapchainDescriptor {
            surface: *surface,
            format: TextureFormat::B8G8R8A8UnormSRGB,
            usage: TextureUsageFlags { bits: TEXTURE_USAGE_OUTPUT_ATTACHMENT },
        }
    }
}

impl Buffer {
    /// The size of the buffer in bytes.
    pub fn size(&self) -> (r: u64)
        ensures
            r == self.descriptor.size,
    {
        self.descriptor.size
    }

    /// The usage declared when the buffer was created.
    pub fn usage(&self) -> (r: BufferUsageFlags)
        ensures
            r == self.descriptor.usage,
    {
        self.descriptor.usage
    }
}

impl BufferView {
    /// The buffer the view looks into.
    pub fn buffer(&self) -> (r: Buffer)
        ensures
            r == self.buffer,
    {
        self.buffer
    }
}

impl BindingResource {
    pub fn as_sampler(&self) -> (r: Option<&Sampler>)
        ensures
            self matches BindingResource::Sampler(s) ==> r == Some(s),
            !(self is Sampler) ==> r.is_none(),
    {
        if let BindingResource::Sampler(sampler) = self {
            Some(sampler)
        } else {
            None
        }
    }

    pub fn as_texture_view(&self) -> (r: Option<&TextureView>)
        ensures
            self matches BindingResource::TextureView(v) ==> r == Some(v),
            !(self is TextureView) ==> r.is_none(),
    {
        if let BindingResource::TextureView(texture_view) = self {
            Some(texture_view)
        } else {
            None
        }
    }

    pub fn as_buffer(&self) -> (r: Option<(&Buffer, &BufferRange)>)
        ensures
            self matches BindingResource::Buffer(b, range) ==> r == Some((b, range)),
            !(self is Buffer) ==> r.is_none(),
    {
        if let BindingResource::Buffer(buffer, range) = self {
            Some((buffer, range))
        } else {
            None
        }
    }

    pub fn as_buffer_view(&self) -> (r: Option<&BufferView>)
        ensures
            self matches BindingResource::BufferView(v) ==> r == Some(v),
            !(self is BufferView) ==> r.is_none(),
    {
        if let BindingResource::BufferView(view) = self {
            Some(view)
        } else {
            None
        }
    }
}

impl BindGroup {
    /// The resources bound by the group.
    pub fn bindings(&self) -> (r: &[BindGroupBinding])
        ensures
            r@ == self.bindings@,
    {
        self.bindings.as_slice()
    }
}

} // verus!
