use vstd::prelude::*;

use crate::error::Error;
use crate::flags::{ShaderStageFlags, SHADER_STAGE_COMPUTE, SHADER_STAGE_FRAGMENT, SHADER_STAGE_VERTEX};
use crate::resources::{BindGroup, BindGroupBinding, BindGroupDescriptor, BindGroupLayoutDescriptor, BindingResource, Device};
use crate::texture::{bit_if, pick};
use crate::types::{BindGroupLayoutBinding, BindingType};
use crate::vk;

verus! {

pub open spec fn spec_descriptor_type(binding_type: BindingType) -> i32 {
    match binding_type {
        BindingType::Sampler => vk::DESCRIPTOR_TYPE_SAMPLER,
        BindingType::DynamicStorageBuffer => vk::DESCRIPTOR_TYPE_STORAGE_BUFFER_DYNAMIC,
        BindingType::SampledTexture => vk::DESCRIPTOR_TYPE_SAMPLED_IMAGE,
        BindingType::DynamicUniformBuffer => vk::DESCRIPTOR_TYPE_UNIFORM_BUFFER_DYNAMIC,
        BindingType::UniformBuffer => vk::DESCRIPTOR_TYPE_UNIFORM_BUFFER,
        BindingType::StorageBuffer => vk::DESCRIPTOR_TYPE_STORAGE_BUFFER,
        BindingType::StorageTexelBuffer => vk::DESCRIPTOR_TYPE_STORAGE_TEXEL_BUFFER,
    }
}

/// The Vulkan descriptor type of a binding type.
pub fn descriptor_type(binding_type: BindingType) -> (r: i32)
    ensures
        r == spec_descriptor_type(binding_type),
{
    match binding_type {
        BindingType::Sampler => vk::DESCRIPTOR_TYPE_SAMPLER,
        BindingType::DynamicStorageBuffer => vk::DESCRIPTOR_TYPE_STORAGE_BUFFER_DYNAMIC,
        BindingType::SampledTexture => vk::DESCRIPTOR_TYPE_SAMPLED_IMAGE,
        BindingType::DynamicUniformBuffer => vk::DESCRIPTOR_TYPE_UNIFORM_BUFFER_DYNAMIC,
        BindingType::UniformBuffer => vk::DESCRIPTOR_TYPE_UNIFORM_BUFFER,
        BindingType::StorageBuffer => vk::DESCRIPTOR_TYPE_STORAGE_BUFFER,
        BindingType::StorageTexelBuffer => vk::DESCRIPTOR_TYPE_STORAGE_TEXEL_BUFFER,
    }
}

/// Each binding type becomes the Vulkan descriptor type of the same name; a
/// sampled texture is a sampled image.
pub proof fn lemma_descriptor_type_names()
    ensures
        spec_descriptor_type(BindingType::UniformBuffer) == vk::DESCRIPTOR_TYPE_UNIFORM_BUFFER,
        spec_descriptor_type(BindingType::DynamicUniformBuffer) == vk::DESCRIPTOR_TYPE_UNIFORM_BUFFER_DYNAMIC,
        spec_descriptor_type(BindingType::Sampler) == vk::DESCRIPTOR_TYPE_SAMPLER,
        spec_descriptor_type(BindingType::SampledTexture) == vk::DESCRIPTOR_TYPE_SAMPLED_IMAGE,
        spec_descriptor_type(BindingType::StorageBuffer) == vk::DESCRIPTOR_TYPE_STORAGE_BUFFER,
        spec_descriptor_type(BindingType::DynamicStorageBuffer) == vk::DESCRIPTOR_TYPE_STORAGE_BUFFER_DYNAMIC,
        spec_descriptor_type(BindingType::StorageTexelBuffer) == vk::DESCRIPTOR_TYPE_STORAGE_TEXEL_BUFFER,
{
}

/// Distinct binding types never become the same descriptor type.
pub proof fn lemma_descriptor_type_injective(a: BindingType, b: BindingType)
    ensures
        spec_descriptor_type(a) == spec_descriptor_type(b) ==> a == b,
{
}

/// A binding takes a dynamic offset exactly when its type is dynamic: its
/// descriptor type is then one of Vulkan's two dynamic buffer types.
pub proof fn lemma_descriptor_type_dynamic(t: BindingType)
    ensures
        (spec_descriptor_type(t) == vk::DESCRIPTOR_TYPE_UNIFORM_BUFFER_DYNAMIC
            || spec_descriptor_type(t) == vk::DESCRIPTOR_TYPE_STORAGE_BUFFER_DYNAMIC) <==> (t
            == BindingType::DynamicUniformBuffer || t == BindingType::DynamicStorageBuffer),
{
}

pub open spec fn spec_shader_stage_flags(visibility: ShaderStageFlags) -> u32 {
    bit_if(visibility.bits & SHADER_STAGE_VERTEX != 0, vk::SHADER_STAGE_VERTEX) | bit_if(
        visibility.bits & SHADER_STAGE_FRAGMENT != 0,
        vk::SHADER_STAGE_FRAGMENT,
    ) | bit_if(visibility.bits & SHADER_STAGE_COMPUTE != 0, vk::SHADER_STAGE_COMPUTE)
}

/// The Vulkan shader stages of a binding's visibility.
pub fn shader_stage_flags(visibility: ShaderStageFlags) -> (r: u32)
    ensures
        r == spec_shader_stage_flags(visibility),
{
    pick(visibility.bits & SHADER_STAGE_VERTEX != 0, vk::SHADER_STAGE_VERTEX) | pick(
        visibility.bits & SHADER_STAGE_FRAGMENT != 0,
        vk::SHADER_STAGE_FRAGMENT,
    ) | pick(visibility.bits & SHADER_STAGE_COMPUTE != 0, vk::SHADER_STAGE_COMPUTE)
}

/// The first position at or after `k` whose binding number is `binding`.
/// A binding is visible to a Vulkan shader stage exactly when it is visible
/// to the stage of the same name, and to no other Vulkan stage.
pub proof fn lemma_shader_stage_flags_bits(visibility: ShaderStageFlags)
    ensures
        spec_shader_stage_flags(visibility) & vk::SHADER_STAGE_VERTEX != 0 <==> visibility.bits & SHADER_STAGE_VERTEX != 0,
        spec_shader_stage_flags(visibility) & vk::SHADER_STAGE_FRAGMENT != 0 <==> visibility.bits & SHADER_STAGE_FRAGMENT
            != 0,
        spec_shader_stage_flags(visibility) & vk::SHADER_STAGE_COMPUTE != 0 <==> visibility.bits & SHADER_STAGE_COMPUTE
            != 0,
        spec_shader_stage_flags(visibility) & !(vk::SHADER_STAGE_VERTEX | vk::SHADER_STAGE_FRAGMENT
            | vk::SHADER_STAGE_COMPUTE) == 0,
{
    let v = visibility.bits;
    let r = spec_shader_stage_flags(visibility);
    assert(0x1u32 | 0x10u32 | 0x20u32 == 0x31u32) by (bit_vector);
    assert(r == ((if v & 1u32 != 0 { 0x1u32 } else { 0u32 }) | (if v & 2u32 != 0 { 0x10u32 } else { 0u32 }) | (if v
        & 4u32 != 0 { 0x20u32 } else { 0u32 })));
    assert({
        &&& (r & 0x1u32 != 0 <==> v & 1u32 != 0)
        &&& (r & 0x10u32 != 0 <==> v & 2u32 != 0)
        &&& (r & 0x20u32 != 0 <==> v & 4u32 != 0)
        &&& r & !0x31u32 == 0
    }) by (bit_vector)
        requires
            r == ((if v & 1u32 != 0 { 0x1u32 } else { 0u32 }) | (if v & 2u32 != 0 { 0x10u32 } else { 0u32 }) | (if v
                & 4u32 != 0 { 0x20u32 } else { 0u32 })),
    ;
}

pub open spec fn first_binding_from(lb: Seq<BindGroupLayoutBinding>, binding: u32, k: int) -> Option<
    int,
>
    decreases lb.len() - k,
{
    if k < 0 || k >= lb.len() {
        None
    } else if lb[k].binding == binding {
        Some(k)
    } else {
        first_binding_from(lb, binding, k + 1)
    }
}

/// Position of the layout binding for a bind group binding: the same position
/// if its binding number matches, else the first one with that number.
pub open spec fn spec_find_layout_binding(
    index: int,
    binding: u32,
    lb: Seq<BindGroupLayoutBinding>,
) -> Option<int> {
    if 0 <= index < lb.len() && lb[index].binding == binding {
        Some(index)
    } else {
        first_binding_from(lb, binding, 0)
    }
}

proof fn lemma_first_binding_from_bounds(lb: Seq<BindGroupLayoutBinding>, binding: u32, k: int)
    requires
        k >= 0,
    ensures
        first_binding_from(lb, binding, k) matches Some(j) ==> k <= j < lb.len() && lb[j].binding
            == binding,
    decreases lb.len() - k,
{
    if k < lb.len() && lb[k].binding != binding {
        lemma_first_binding_from_bounds(lb, binding, k + 1);
    }
}

/// Finds the layout binding that corresponds to the bind group binding at
/// position `bind_group_binding_descriptor_index` with number
/// `bind_group_binding`: the layout binding at that same position if its number
/// matches, else the first layout binding with that number.
pub fn find_layout_binding<'a>(
    bind_group_binding_descriptor_index: usize,
    bind_group_binding: u32,
    layout_bindings: &'a [BindGroupLayoutBinding],
) -> (r: Option<&'a BindGroupLayoutBinding>)
    ensures
        match spec_find_layout_binding(
            bind_group_binding_descriptor_index as int,
            bind_group_binding,
            layout_bindings@,
        ) {
            Some(j) => 0 <= j < layout_bindings@.len() && r == Some(&layout_bindings@[j]),
            None => r.is_none(),
        },
{
    let i = bind_group_binding_descriptor_index;
    if i < layout_bindings.len() && layout_bindings[i].binding == bind_group_binding {
        return Some(&layout_bindings[i]);
    }
    let mut k: usize = 0;
    proof {
        lemma_first_binding_from_bounds(layout_bindings@, bind_group_binding, 0);
    }
    while k < layout_bindings.len()
        invariant
            k <= layout_bindings@.len(),
            i == bind_group_binding_descriptor_index,
            !(i < layout_bindings@.len() && layout_bindings@[i as int].binding == bind_group_binding),
            first_binding_from(layout_bindings@, bind_group_binding, 0) == first_binding_from(
                layout_bindings@,
                bind_group_binding,
                k as int,
            ),
        decreases layout_bindings@.len() - k,
    {
        if layout_bindings[k].binding == bind_group_binding {
            assert(first_binding_from(layout_bindings@, bind_group_binding, k as int) == Some(k as int));
            return Some(&layout_bindings[k]);
        }
        k = k + 1;
    }
    None
}

/// How many descriptors of one type a bind group's pool must hold.
#[derive(Clone, Copy, Debug, PartialEq, Eq, Structural, Hash)]
pub struct DescriptorPoolSize {
    pub descriptor_type: i32,
    pub descriptor_count: u32,
}

/// Number of layout bindings of descriptor type `ty`.
pub open spec fn count_of_type(lb: Seq<BindGroupLayoutBinding>, ty: i32) -> nat
    decreases lb.len(),
{
    if lb.len() == 0 {
        0
    } else {
        count_of_type(lb.drop_last(), ty) + if spec_descriptor_type(lb.last().binding_type) == ty {
            1nat
        } else {
            0nat
        }
    }
}

/// The descriptor types in ascending order.
pub open spec fn all_descriptor_types() -> Seq<i32> {
    seq![
        vk::DESCRIPTOR_TYPE_SAMPLER,
        vk::DESCRIPTOR_TYPE_SAMPLED_IMAGE,
        vk::DESCRIPTOR_TYPE_STORAGE_TEXEL_BUFFER,
        vk::DESCRIPTOR_TYPE_UNIFORM_BUFFER,
        vk::DESCRIPTOR_TYPE_STORAGE_BUFFER,
        vk::DESCRIPTOR_TYPE_UNIFORM_BUFFER_DYNAMIC,
        vk::DESCRIPTOR_TYPE_STORAGE_BUFFER_DYNAMIC,
    ]
}

fn count_descriptors(layout_bindings: &[BindGroupLayoutBinding], ty: i32) -> (r: u32)
    requires
        layout_bindings@.len() <= u32::MAX,
    ensures
        r == count_of_type(layout_bindings@, ty),
{
    let mut count: u32 = 0;
    let mut i: usize = 0;
    while i < layout_bindings.len()
        invariant
            i <= layout_bindings@.len(),
            layout_bindings@.len() <= u32::MAX,
            count == count_of_type(layout_bindings@.take(i as int), ty),
            count <= i,
        decreases layout_bindings@.len() - i,
    {
        proof {
            assert(layout_bindings@.take(i as int + 1).drop_last() =~= layout_bindings@.take(i as int));
        }
        if descriptor_type(layout_bindings[i].binding_type) == ty {
            count = count + 1;
        }
        i = i + 1;
    }
    proof {
        assert(layout_bindings@.take(layout_bindings@.len() as int) =~= layout_bindings@);
    }
    count
}

/// One pool size per descriptor type that the layout bindings use, with the
/// number of bindings of that type, in ascending order of descriptor type.
pub open spec fn spec_pool_sizes(lb: Seq<BindGroupLayoutBinding>) -> Seq<DescriptorPoolSize> {
    all_descriptor_types().filter(|t: i32| count_of_type(lb, t) > 0).map_values(
        |t: i32| DescriptorPoolSize { descriptor_type: t, descriptor_count: count_of_type(lb, t) as u32 },
    )
}

/// The pool sizes for a bind group with the given layout: one entry per
/// descriptor type that the layout uses, with the number of bindings of that
/// type, in ascending order of descriptor type.
pub fn descriptor_pool_sizes(layout_bindings: &[BindGroupLayoutBinding]) -> (r: Vec<DescriptorPoolSize>)
    requires
        layout_bindings@.len() <= u32::MAX,
    ensures
        r@ == spec_pool_sizes(layout_bindings@),
{
    let types: [i32; 7] = [
        vk::DESCRIPTOR_TYPE_SAMPLER,
        vk::DESCRIPTOR_TYPE_SAMPLED_IMAGE,
        vk::DESCRIPTOR_TYPE_STORAGE_TEXEL_BUFFER,
        vk::DESCRIPTOR_TYPE_UNIFORM_BUFFER,
        vk::DESCRIPTOR_TYPE_STORAGE_BUFFER,
        vk::DESCRIPTOR_TYPE_UNIFORM_BUFFER_DYNAMIC,
        vk::DESCRIPTOR_TYPE_STORAGE_BUFFER_DYNAMIC,
    ];
    let ghost all = all_descriptor_types();
    let ghost p = |t: i32| count_of_type(layout_bindings@, t) > 0;
    let ghost f = |t: i32| DescriptorPoolSize { descriptor_type: t, descriptor_count: count_of_type(layout_bindings@, t) as u32 };
    assert(types@ =~= all);
    let mut out: Vec<DescriptorPoolSize> = Vec::new();
    let mut i: usize = 0;
    while i < 7
        invariant
            i <= 7,
            types@ == all,
            all.len() == 7,
            layout_bindings@.len() <= u32::MAX,
            p == (|t: i32| count_of_type(layout_bindings@, t) > 0),
            f == (|t: i32| DescriptorPoolSize { descriptor_type: t, descriptor_count: count_of_type(layout_bindings@, t) as u32 }),
            out@ == all.take(i as int).filter(p).map_values(f),
        decreases 7 - i,
    {
        let ty = types[i];
        let n = count_descriptors(layout_bindings, ty);
        proof {
            reveal_with_fuel(Seq::filter, 1);
            assert(all.take(i as int + 1).drop_last() =~= all.take(i as int));
            assert(all.take(i as int + 1).last() == ty);
            assert(p(ty) == (n > 0));
        }
        if n > 0 {
            out.push(DescriptorPoolSize { descriptor_type: ty, descriptor_count: n });
            proof {
                assert(all.take(i as int + 1).filter(p) == all.take(i as int).filter(p).push(ty));
                assert(all.take(i as int + 1).filter(p).map_values(f) =~= all.take(i as int).filter(p).map_values(f).push(f(ty)));
            }
        }
        i = i + 1;
    }
    proof {
        assert(all.take(7) =~= all);
    }
    out
}

} // verus!

verus! {

/// What a descriptor write points the descriptor at.
#[derive(Clone, Copy, Debug, PartialEq, Eq, Structural, Hash)]
pub enum DescriptorWriteInfo {
    Buffer { buffer: u64, offset: u64, range: u64 },
    Sampler { sampler: u64 },
    Image { image_view: u64, image_layout: i32 },
    TexelBufferView { buffer_view: u64 },
}

/// One descriptor update of a bind group.
#[derive(Clone, Copy, Debug, PartialEq, Eq, Structural, Hash)]
pub struct DescriptorWrite {
    pub dst_binding: u32,
    pub descriptor_type: i32,
    pub info: DescriptorWriteInfo,
}

/// The most bindings a bind group may have.
pub const MAX_BINDINGS_PER_GROUP: usize = 16;

/// A resource fits a binding type: buffers for (dynamic) uniform and storage
/// buffers, samplers for samplers, texture views for sampled textures and
/// buffer views for storage texel buffers.
pub open spec fn resource_fits(resource: BindingResource, binding_type: BindingType) -> bool {
    match resource {
        BindingResource::Buffer(_, _) => binding_type == BindingType::UniformBuffer || binding_type
            == BindingType::DynamicUniformBuffer || binding_type == BindingType::StorageBuffer
            || binding_type == BindingType::DynamicStorageBuffer,
        BindingResource::Sampler(_) => binding_type == BindingType::Sampler,
        BindingResource::TextureView(_) => binding_type == BindingType::SampledTexture,
        BindingResource::BufferView(_) => binding_type == BindingType::StorageTexelBuffer,
    }
}

/// The write for a binding whose resource fits the layout binding. A buffer
/// binding records its range's start as offset and its end as range.
pub open spec fn write_for(binding: BindGroupBinding, layout_binding: BindGroupLayoutBinding) -> DescriptorWrite {
    DescriptorWrite {
        dst_binding: binding.binding,
        descriptor_type: spec_descriptor_type(layout_binding.binding_type),
        info: match binding.resource {
            BindingResource::Buffer(b, range) => DescriptorWriteInfo::Buffer {
                buffer: b.handle,
                offset: range.start,
                range: range.end,
            },
            BindingResource::Sampler(s) => DescriptorWriteInfo::Sampler { sampler: s.handle },
            BindingResource::TextureView(v) => DescriptorWriteInfo::Image {
                image_view: v.handle,
                image_layout: vk::IMAGE_LAYOUT_SHADER_READ_ONLY_OPTIMAL,
            },
            BindingResource::BufferView(v) => DescriptorWriteInfo::TexelBufferView {
                buffer_view: v.handle,
            },
        },
    }
}

/// The binding at position `i` has a layout binding that its resource fits.
pub open spec fn binding_valid(
    bindings: Seq<BindGroupBinding>,
    lb: Seq<BindGroupLayoutBinding>,
    i: int,
) -> bool {
    match spec_find_layout_binding(i, bindings[i].binding, lb) {
        Some(j) => resource_fits(bindings[i].resource, lb[j].binding_type),
        None => false,
    }
}

/// Every binding of the bind group has a layout binding that its resource fits.
pub open spec fn bindings_valid(descriptor: BindGroupDescriptor) -> bool {
    forall|i: int|
        0 <= i < descriptor.bindings@.len() ==> binding_valid(descriptor.bindings@, descriptor.layout.bindings@, i)
}

/// `w` holds the descriptor writes of the bind group: one per binding, in
/// order, each for the binding and its layout binding.
pub open spec fn writes_for(descriptor: BindGroupDescriptor, w: Seq<DescriptorWrite>) -> bool {
    &&& w.len() == descriptor.bindings@.len()
    &&& forall|i: int|
        0 <= i < w.len() ==> match spec_find_layout_binding(i, descriptor.bindings@[i].binding, descriptor.layout.bindings@) {
            Some(j) => #[trigger] w[i] == write_for(descriptor.bindings@[i], descriptor.layout.bindings@[j]),
            None => false,
        }
}

/// Filling the bind group would need more than `MAX_BINDINGS_PER_GROUP`
/// writes: every one of the first `MAX_BINDINGS_PER_GROUP` bindings is valid
/// and the next one has a layout binding.
pub open spec fn bind_group_overflows(descriptor: BindGroupDescriptor) -> bool {
    let n = MAX_BINDINGS_PER_GROUP as int;
    &&& descriptor.bindings@.len() > n
    &&& forall|i: int| 0 <= i < n ==> binding_valid(descriptor.bindings@, descriptor.layout.bindings@, i)
    &&& spec_find_layout_binding(n, descriptor.bindings@[n].binding, descriptor.layout.bindings@) is Some
}

/// Checks every binding of a bind group against its layout and returns the
/// descriptor writes, one per binding in order. Fails with a message when a
/// binding has no layout binding or its resource does not fit the binding type.
pub fn bind_group_writes(descriptor: &BindGroupDescriptor) -> (r: Result<Vec<DescriptorWrite>, Error>)
    requires
        !bind_group_overflows(*descriptor),
    ensures
        r is Ok <==> bindings_valid(*descriptor),
        r matches Err(e) ==> e.kind is Message,
        r matches Ok(w) ==> writes_for(*descriptor, w@),
{
    let bindings = &descriptor.bindings;
    let layout_bindings = descriptor.layout.bindings.as_slice();
    let mut writes: Vec<DescriptorWrite> = Vec::new();
    let mut index: usize = 0;
    while index < bindings.len()
        invariant
            index <= bindings@.len(),
            index <= MAX_BINDINGS_PER_GROUP,
            !bind_group_overflows(*descriptor),
            layout_bindings@ == descriptor.layout.bindings@,
            bindings@ == descriptor.bindings@,
            writes@.len() == index,
            forall|i: int| 0 <= i < index ==> binding_valid(bindings@, layout_bindings@, i),
            forall|i: int|
                0 <= i < index ==> match spec_find_layout_binding(
                    i,
                    bindings@[i].binding,
                    layout_bindings@,
                ) {
                    Some(j) => #[trigger] writes@[i] == write_for(bindings@[i], layout_bindings@[j]),
                    None => false,
                },
        decreases bindings@.len() - index,
    {
        let binding = &bindings[index];
        let found = find_layout_binding(index, binding.binding, layout_bindings);
        let layout_binding = match found {
            Some(lb) => lb,
            None => {
                assert(!binding_valid(bindings@, layout_bindings@, index as int));
                return Err(Error::from_message("BindGroupLayout mismatch: BindGroupLayoutBinding not found"));
            },
        };
        assert(index < MAX_BINDINGS_PER_GROUP);
        let descriptor_type = descriptor_type(layout_binding.binding_type);
        let info = match (&binding.resource, layout_binding.binding_type) {
            (BindingResource::Buffer(buffer, range), BindingType::UniformBuffer)
            | (BindingResource::Buffer(buffer, range), BindingType::DynamicUniformBuffer)
            | (BindingResource::Buffer(buffer, range), BindingType::StorageBuffer)
            | (BindingResource::Buffer(buffer, range), BindingType::DynamicStorageBuffer) => {
                DescriptorWriteInfo::Buffer { buffer: buffer.handle, offset: range.start, range: range.end }
            },
            (BindingResource::Sampler(sampler), BindingType::Sampler) => {
                DescriptorWriteInfo::Sampler { sampler: sampler.handle }
            },
            (BindingResource::TextureView(view), BindingType::SampledTexture) => {
                DescriptorWriteInfo::Image {
                    image_view: view.handle,
                    image_layout: vk::IMAGE_LAYOUT_SHADER_READ_ONLY_OPTIMAL,
                }
            },
            (BindingResource::BufferView(view), BindingType::StorageTexelBuffer) => {
                DescriptorWriteInfo::TexelBufferView { buffer_view: view.handle }
            },
            _ => {
                assert(!binding_valid(bindings@, layout_bindings@, index as int));
                return Err(Error::from_message("BindingType is not valid for the BindingResource"));
            },
        };
        writes.push(DescriptorWrite { dst_binding: binding.binding, descriptor_type, info });
        index = index + 1;
    }
    Ok(writes)
}

/// How a bind group is created: a descriptor pool sized for its layout, from
/// which its one descriptor set is allocated, and the writes that fill it.
#[derive(Clone, Debug)]
pub struct BindGroupPlan {
    pub pool_sizes: Vec<DescriptorPoolSize>,
    pub writes: Vec<DescriptorWrite>,
}

impl Device {
    /// Works out how to create a bind group. Fails with a message when a
    /// binding has no layout binding or its resource does not fit the binding
    /// type.
    pub fn create_bind_group(&self, descriptor: &BindGroupDescriptor) -> (r: Result<BindGroupPlan, Error>)
        requires
            !bind_group_overflows(*descriptor),
            descriptor.layout.bindings@.len() <= u32::MAX,
        ensures
            r is Ok <==> bindings_valid(*descriptor),
            r matches Err(e) ==> e.kind is Message,
            r matches Ok(p) ==> {
                &&& p.pool_sizes@ == spec_pool_sizes(descriptor.layout.bindings@)
                &&& writes_for(*descriptor, p.writes@)
            },
    {
        let pool_sizes = descriptor_pool_sizes(descriptor.layout.bindings.as_slice());
        match bind_group_writes(descriptor) {
            Ok(writes) => Ok(BindGroupPlan { pool_sizes, writes }),
            Err(e) => Err(e),
        }
    }
}

impl Device {
    /// The bind group that creating one for `descriptor` gave: the descriptor
    /// set `handle`, allocated from `descriptor_pool`, with the descriptor's
    /// layout and bindings in order.
    pub fn created_bind_group(&self, descriptor: BindGroupDescriptor, handle: u64, descriptor_pool: u64) -> (r: BindGroup)
        ensures
            r.handle == handle,
            r.descriptor_pool == descriptor_pool,
            r.layout == descriptor.layout,
            r.bindings@ == descriptor.bindings@,
    {
        let BindGroupDescriptor { layout, bindings } = descriptor;
        BindGroup { handle, descriptor_pool, layout, bindings }
    }
}

/// One binding of a Vulkan descriptor set layout: one descriptor.
#[derive(Clone, Copy, Debug, PartialEq, Eq, Structural, Hash)]
pub struct DescriptorSetLayoutBinding {
    pub binding: u32,
    pub descriptor_type: i32,
    pub descriptor_count: u32,
    pub stage_flags: u32,
}

pub open spec fn spec_layout_binding(b: BindGroupLayoutBinding) -> DescriptorSetLayoutBinding {
    DescriptorSetLayoutBinding {
        binding: b.binding,
        descriptor_type: spec_descriptor_type(b.binding_type),
        descriptor_count: 1,
        stage_flags: spec_shader_stage_flags(b.visibility),
    }
}

impl Device {
    /// The descriptor set layout bindings of a bind group layout, one per binding,
    /// in order.
    pub fn create_bind_group_layout(&self, descriptor: &BindGroupLayoutDescriptor) -> (r: Vec<DescriptorSetLayoutBinding>)
        ensures
            r@ == descriptor.bindings@.map_values(|b: BindGroupLayoutBinding| spec_layout_binding(b)),
    {
        let bindings = descriptor.bindings;
        let mut r: Vec<DescriptorSetLayoutBinding> = Vec::new();
        let mut i: usize = 0;
        while i < bindings.len()
            invariant
                i <= bindings@.len(),
                r@ == bindings@.take(i as int).map_values(|b: BindGroupLayoutBinding| spec_layout_binding(b)),
            decreases bindings@.len() - i,
        {
            let b = bindings[i];
            r.push(
                DescriptorSetLayoutBinding {
                    binding: b.binding,
                    descriptor_type: descriptor_type(b.binding_type),
                    descriptor_count: 1,
                    stage_flags: shader_stage_flags(b.visibility),
                },
            );
            assert(bindings@.take(i + 1) == bindings@.take(i as int).push(bindings@[i as int]));
            i = i + 1;
        }
        assert(bindings@.take(i as int) == bindings@);
        r
    }
}

} // verus!
