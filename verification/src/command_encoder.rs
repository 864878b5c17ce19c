use vstd::prelude::*;

use typed_arena::Arena;

use crate::binding::{binding_valid, find_layout_binding, spec_find_layout_binding};
use crate::command::{
    BufferCopy, BufferCopyView, Command, RenderPassColorAttachmentDescriptor, RenderPassDescriptor,
    TextureBlit, TextureBlitView, TextureCopy, TextureCopyView,
};
use crate::error::{Error, ErrorKind};
use crate::flags::{
    BufferUsageFlags, ShaderStageFlags, TextureUsageFlags, BUFFER_USAGE_INDEX, BUFFER_USAGE_STORAGE,
    BUFFER_USAGE_UNIFORM, BUFFER_USAGE_VERTEX, TEXTURE_USAGE_OUTPUT_ATTACHMENT, TEXTURE_USAGE_SAMPLED,
};
use crate::pass_resource_usage::{
    spec_buffer_used_as, spec_insert_buffer, spec_insert_texture, spec_texture_used_as,
    CommandBufferResourceUsage, PassResourceUsageTracker, TrackerView, holds_buffer_usage_union,
    holds_texture_usage_union, lemma_pass_usage_is_union,
};
use crate::pipeline::MAX_PUSH_CONSTANTS_SIZE;
use crate::resources::{BindGroup, BindGroupBinding, BindingResource, Buffer, ComputePipeline, Device, RenderPipeline, TextureView};
use crate::texture::sample_count_and_mipmap_size;
use crate::types::{BindGroupLayoutBinding, BindingType, ColorBits, Extent3D, FilterMode};
use crate::vk;

verus! {

#[verifier::external_type_specification]
#[verifier::external_body]
#[verifier::reject_recursive_types(T)]
pub struct ExArena<T>(Arena<T>);

/// The commands an arena holds, in the order they were allocated.
pub uninterp spec fn arena_commands(arena: Arena<Command>) -> Seq<Command>;

/// `typed_arena::Arena::new`: an arena that holds nothing yet.
#[verifier::external_body]
fn new_command_arena() -> (r: Arena<Command>)
    ensures
        arena_commands(r) == Seq::<Command>::empty(),
{
    Arena::new()
}

/// `typed_arena::Arena::alloc`: moves the command into the arena, after the
/// commands allocated before it. The arena panics only when the capacity of
/// its next chunk would overflow `usize`; that bound is left unsaid here.
#[verifier::external_body]
fn alloc_command(arena: &mut Arena<Command>, command: Command)
    ensures
        arena_commands(*final(arena)) == arena_commands(*old(arena)).push(command),
{
    arena.alloc(command);
}

/// `typed_arena::Arena::into_vec`: the commands, in the order they were
/// allocated, as the crate's documentation states.
#[verifier::external_body]
fn command_arena_into_vec(arena: Arena<Command>) -> (r: Vec<Command>)
    ensures
        r@ == arena_commands(arena),
{
    arena.into_vec()
}

/// A recorded command buffer: the commands in order and the resources they use.
#[derive(Debug)]
pub struct CommandBuffer {
    pub commands: Vec<Command>,
    pub resource_usages: CommandBufferResourceUsage,
}

/// Records commands outside of passes, and begins passes.
pub struct CommandEncoder {
    commands: Arena<Command>,
    resource_usages: CommandBufferResourceUsage,
}

/// A tracker that has recorded nothing.
pub open spec fn empty_tracker() -> TrackerView {
    TrackerView {
        buffers: Seq::empty(),
        textures: Seq::empty(),
        storage_used_multiple_times: false,
        buffer_uses: Seq::empty(),
        texture_uses: Seq::empty(),
    }
}

/// The usage a binding of a bind group gives its resource, by the type of its
/// layout binding: uniform buffers as uniform, storage buffers and storage
/// texel buffers as storage, sampled textures as sampled; samplers are not
/// tracked.
pub open spec fn track_binding(t: TrackerView, binding: BindGroupBinding, binding_type: BindingType) -> TrackerView {
    match binding_type {
        BindingType::UniformBuffer | BindingType::DynamicUniformBuffer => match binding.resource {
            BindingResource::Buffer(buffer, _) => spec_buffer_used_as(
                t,
                buffer,
                BufferUsageFlags { bits: BUFFER_USAGE_UNIFORM },
            ),
            _ => t,
        },
        BindingType::StorageBuffer | BindingType::DynamicStorageBuffer => match binding.resource {
            BindingResource::Buffer(buffer, _) => spec_buffer_used_as(
                t,
                buffer,
                BufferUsageFlags { bits: BUFFER_USAGE_STORAGE },
            ),
            _ => t,
        },
        BindingType::SampledTexture => match binding.resource {
            BindingResource::TextureView(view) => spec_texture_used_as(
                t,
                view.texture,
                TextureUsageFlags { bits: TEXTURE_USAGE_SAMPLED },
            ),
            _ => t,
        },
        BindingType::StorageTexelBuffer => match binding.resource {
            BindingResource::BufferView(view) => spec_buffer_used_as(
                t,
                view.buffer,
                BufferUsageFlags { bits: BUFFER_USAGE_STORAGE },
            ),
            _ => t,
        },
        BindingType::Sampler => t,
    }
}

/// The binding type of the layout binding that the binding at position `i`
/// refers to.
pub open spec fn layout_binding_type(
    bindings: Seq<BindGroupBinding>,
    layout: Seq<BindGroupLayoutBinding>,
    i: int,
) -> BindingType {
    match spec_find_layout_binding(i, bindings[i].binding, layout) {
        Some(j) => layout[j].binding_type,
        None => BindingType::Sampler,
    }
}

/// The tracker after recording the first `n` bindings of a bind group.
pub open spec fn track_bindings(
    t: TrackerView,
    bindings: Seq<BindGroupBinding>,
    layout: Seq<BindGroupLayoutBinding>,
    n: nat,
) -> TrackerView
    decreases n,
{
    if n == 0 {
        t
    } else {
        track_binding(
            track_bindings(t, bindings, layout, (n - 1) as nat),
            bindings[n - 1],
            layout_binding_type(bindings, layout, n - 1),
        )
    }
}

/// The tracker after recording the first `n` vertex buffers.
pub open spec fn track_vertex_buffers(t: TrackerView, buffers: Seq<Buffer>, n: nat) -> TrackerView
    decreases n,
{
    if n == 0 {
        t
    } else {
        spec_buffer_used_as(
            track_vertex_buffers(t, buffers, (n - 1) as nat),
            buffers[n - 1],
            BufferUsageFlags { bits: BUFFER_USAGE_VERTEX },
        )
    }
}

/// The tracker after recording the targets of the first `n` color
/// attachments: each attachment, then its resolve target, as output attachments.
pub open spec fn track_color_targets(
    t: TrackerView,
    colors: Seq<RenderPassColorAttachmentDescriptor>,
    n: nat,
) -> TrackerView
    decreases n,
{
    if n == 0 {
        t
    } else {
        let out = TextureUsageFlags { bits: TEXTURE_USAGE_OUTPUT_ATTACHMENT };
        let t1 = spec_texture_used_as(
            track_color_targets(t, colors, (n - 1) as nat),
            colors[n - 1].attachment.texture,
            out,
        );
        match colors[n - 1].resolve_target {
            Some(v) => spec_texture_used_as(t1, v.texture, out),
            None => t1,
        }
    }
}

/// What a render pass uses: every color attachment and resolve target, then
/// the depth stencil attachment, as output attachments.
pub open spec fn render_pass_usage(d: RenderPassDescriptor) -> TrackerView {
    let t = track_color_targets(empty_tracker(), d.color_attachments@, d.color_attachments@.len());
    match d.depth_stencil_attachment {
        Some(a) => spec_texture_used_as(
            t,
            a.attachment.texture,
            TextureUsageFlags { bits: TEXTURE_USAGE_OUTPUT_ATTACHMENT },
        ),
        None => t,
    }
}

/// Sample count, width and height of the texture a view shows, at the view's
/// base mip level.
pub open spec fn attachment_probe(view: TextureView) -> (u32, u32, u32) {
    (
        view.texture.descriptor.sample_count,
        view.texture.descriptor.size.width >> view.descriptor.base_mip_level,
        view.texture.descriptor.size.height >> view.descriptor.base_mip_level,
    )
}

pub open spec fn max_u32(a: u32, b: u32) -> u32 {
    if a >= b { a } else { b }
}

pub open spec fn min_u32(a: u32, b: u32) -> u32 {
    if a <= b { a } else { b }
}

/// Takes one more attachment into account: the largest sample count and the
/// smallest size.
pub open spec fn narrow(acc: (u32, u32, u32), p: (u32, u32, u32)) -> (u32, u32, u32) {
    (max_u32(acc.0, p.0), min_u32(acc.1, p.1), min_u32(acc.2, p.2))
}

/// `acc` narrowed by one more attachment; the first attachment is taken as it is.
pub open spec fn extent_step(acc: Option<(u32, u32, u32)>, p: (u32, u32, u32)) -> Option<(u32, u32, u32)> {
    match acc {
        Some(a) => Some(narrow(a, p)),
        None => Some(p),
    }
}

/// The largest sample count and the smallest width and height of the views,
/// or `None` when there is none.
pub open spec fn views_extent(views: Seq<TextureView>) -> Option<(u32, u32, u32)>
    decreases views.len(),
{
    if views.len() == 0 {
        None
    } else {
        extent_step(views_extent(views.drop_last()), attachment_probe(views.last()))
    }
}

/// The resolve targets of the first `n` color attachments, in order.
pub open spec fn resolve_views(colors: Seq<RenderPassColorAttachmentDescriptor>, n: nat) -> Seq<TextureView>
    decreases n,
{
    if n == 0 {
        Seq::empty()
    } else {
        let r = resolve_views(colors, (n - 1) as nat);
        match colors[n - 1].resolve_target {
            Some(v) => r.push(v),
            None => r,
        }
    }
}

/// Every view a render pass draws to: the color attachments, the depth
/// stencil attachment and the resolve targets.
pub open spec fn render_pass_views(d: RenderPassDescriptor) -> Seq<TextureView> {
    d.color_attachments@.map_values(|c: RenderPassColorAttachmentDescriptor| c.attachment) + match d.depth_stencil_attachment {
        Some(a) => seq![a.attachment],
        None => Seq::<TextureView>::empty(),
    } + resolve_views(d.color_attachments@, d.color_attachments@.len())
}

/// The sample count, width and height of a render pass's framebuffer: the
/// largest sample count of its attachments and the smallest size, at least one
/// by one; one by one without attachments. Attachments normally agree; while
/// a window is resized they may not.
pub open spec fn render_pass_extent(d: RenderPassDescriptor) -> (u32, u32, u32) {
    match views_extent(render_pass_views(d)) {
        Some(e) => (max_u32(e.0, 1), max_u32(e.1, 1), max_u32(e.2, 1)),
        None => (1, 1, 1),
    }
}

proof fn lemma_views_extent_push(views: Seq<TextureView>, v: TextureView)
    ensures
        views_extent(views.push(v)) == extent_step(views_extent(views), attachment_probe(v)),
{
    assert(views.push(v).drop_last() =~= views);
}

/// Narrows the extent gathered so far by one more view.
fn fold_view(acc: Option<(u32, u32, u32)>, view: &TextureView) -> (r: Option<(u32, u32, u32)>)
    requires
        view.descriptor.base_mip_level < 32,
    ensures
        r == extent_step(acc, attachment_probe(*view)),
{
    let (a_sample_count, size) = sample_count_and_mipmap_size(&view.texture.descriptor, &view.descriptor);
    match acc {
        Some((s, w, h)) => Some(
            (
                if s >= a_sample_count { s } else { a_sample_count },
                if w <= size.width { w } else { size.width },
                if h <= size.height { h } else { size.height },
            ),
        ),
        None => Some((a_sample_count, size.width, size.height)),
    }
}

/// Every view a render pass draws to has a base mip level below 32.
pub open spec fn render_pass_views_valid(d: RenderPassDescriptor) -> bool {
    &&& forall|i: int|
        0 <= i < d.color_attachments@.len() ==> (#[trigger] d.color_attachments@[i]).attachment.descriptor.base_mip_level
            < 32
    &&& forall|i: int|
        0 <= i < d.color_attachments@.len() ==> ((#[trigger] d.color_attachments@[i]).resolve_target matches Some(
            v,
        ) ==> v.descriptor.base_mip_level < 32)
    &&& d.depth_stencil_attachment matches Some(a) ==> a.attachment.descriptor.base_mip_level < 32
}

/// The bytes a push constants command carries: the value, then zeros up to
/// the push constant space.
pub open spec fn push_constant_bytes(value: Seq<u8>) -> Seq<u8> {
    value + Seq::new((MAX_PUSH_CONSTANTS_SIZE - value.len()) as nat, |i: int| 0u8)
}

/// Push constants fit when the value ends within the push constant space.
pub open spec fn push_constants_fit(offset_bytes: usize, size_bytes: nat) -> bool {
    offset_bytes + size_bytes <= MAX_PUSH_CONSTANTS_SIZE
}

/// `new` is `old` with one more command that satisfies `f`.
pub open spec fn appended(old: Seq<Command>, new: Seq<Command>, f: spec_fn(Command) -> bool) -> bool {
    new.len() == old.len() + 1 && new.drop_last() == old && f(new.last())
}

/// The dynamic offsets of a bind group command, as 32-bit values.
pub open spec fn offsets_as_u32(given: Option<Seq<usize>>, recorded: Option<Vec<u32>>) -> bool {
    match (given, recorded) {
        (None, None) => true,
        (Some(g), Some(r)) => r@.len() == g.len() && forall|j: int| 0 <= j < g.len() ==> r@[j] == g[j],
        _ => false,
    }
}

/// Dynamic offsets all fit in 32 bits.
pub open spec fn offsets_fit(dynamic_offsets: Option<&[usize]>) -> bool {
    dynamic_offsets matches Some(d) ==> forall|j: int| 0 <= j < d@.len() ==> d@[j] <= u32::MAX
}

/// Every binding of a bind group refers to a layout binding its resource fits,
/// as creating the bind group checked.
pub open spec fn bind_group_valid(bind_group: BindGroup) -> bool {
    forall|i: int|
        0 <= i < bind_group.bindings@.len() ==> binding_valid(
            bind_group.bindings@,
            bind_group.layout.bindings@,
            i,
        )
}

fn convert_offsets(dynamic_offsets: Option<&[usize]>) -> (r: Option<Vec<u32>>)
    requires
        offsets_fit(dynamic_offsets),
    ensures
        offsets_as_u32(
            match dynamic_offsets {
                Some(d) => Some(d@),
                None => None,
            },
            r,
        ),
{
    match dynamic_offsets {
        None => None,
        Some(d) => {
            let mut v: Vec<u32> = Vec::new();
            let mut j: usize = 0;
            while j < d.len()
                invariant
                    j <= d@.len(),
                    v@.len() == j,
                    forall|k: int| 0 <= k < d@.len() ==> d@[k] <= u32::MAX,
                    forall|k: int| 0 <= k < j ==> v@[k] == d@[k],
                decreases d@.len() - j,
            {
                v.push(d[j] as u32);
                j = j + 1;
            }
            Some(v)
        },
    }
}

impl CommandEncoder {
    /// The commands recorded so far, in order.
    pub closed spec fn commands(&self) -> Seq<Command> {
        arena_commands(self.commands)
    }

    /// The resources the recorded commands use.
    pub closed spec fn resource_usages(&self) -> CommandBufferResourceUsage {
        self.resource_usages
    }

    pub open spec fn wf(&self) -> bool {
        self.resource_usages().wf()
    }

    /// An encoder that has recorded nothing.
    pub fn new() -> (r: Self)
        ensures
            r.wf(),
            r.commands() == Seq::<Command>::empty(),
            r.resource_usages().per_pass@.len() == 0,
            r.resource_usages().top_level_buffers@.len() == 0,
            r.resource_usages().top_level_textures@.len() == 0,
    {
        CommandEncoder { commands: new_command_arena(), resource_usages: CommandBufferResourceUsage::new() }
    }

    fn push(&mut self, command: Command)
        ensures
            final(self).commands() == old(self).commands().push(command),
            final(self).commands().drop_last() == old(self).commands(),
            final(self).commands().last() == command,
            final(self).commands().len() == old(self).commands().len() + 1,
            final(self).resource_usages() == old(self).resource_usages(),
    {
        let ghost before = self.commands();
        alloc_command(&mut self.commands, command);
        assert(self.commands().drop_last() =~= before);
    }

    /// Begins a render pass; see `RenderPassEncoder`.
    pub fn begin_render_pass(self, descriptor: RenderPassDescriptor) -> (r: RenderPassEncoder)
        requires
            self.wf(),
            render_pass_views_valid(descriptor),
        ensures
            r.wf(),
            r.resource_usages() == self.resource_usages(),
            r.tracker() == render_pass_usage(descriptor),
            appended(
                self.commands(),
                r.commands(),
                |c: Command|
                    c matches Command::BeginRenderPass {
                        color_attachments,
                        depth_stencil_attachment,
                        width,
                        height,
                        sample_count,
                    } && color_attachments@ == descriptor.color_attachments@ && depth_stencil_attachment
                        == descriptor.depth_stencil_attachment && (sample_count, width, height)
                        == render_pass_extent(descriptor),
            ),
    {
        RenderPassEncoder::begin_render_pass(self, descriptor)
    }

    /// Begins a compute pass; see `ComputePassEncoder`.
    pub fn begin_compute_pass(self) -> (r: ComputePassEncoder)
        requires
            self.wf(),
        ensures
            r.wf(),
            r.commands() == self.commands().push(Command::BeginComputePass),
            r.resource_usages() == self.resource_usages(),
            r.tracker() == empty_tracker(),
    {
        ComputePassEncoder::begin_compute_pass(self)
    }

    /// Records a copy of `size_bytes` bytes between two buffers; both are used
    /// outside of any pass.
    pub fn copy_buffer_to_buffer(
        &mut self,
        src: &Buffer,
        src_offset: usize,
        dst: &Buffer,
        dst_offset: usize,
        size_bytes: usize,
    )
        requires
            old(self).wf(),
        ensures
            final(self).wf(),
            final(self).commands() == old(self).commands().push(
                Command::CopyBufferToBuffer {
                    src: BufferCopy { buffer: *src, offset: src_offset as u64, row_pitch: 0, image_height: 0 },
                    dst: BufferCopy { buffer: *dst, offset: dst_offset as u64, row_pitch: 0, image_height: 0 },
                    size_bytes: size_bytes as u64,
                },
            ),
            final(self).resource_usages().top_level_buffers@ == spec_insert_buffer(
                spec_insert_buffer(old(self).resource_usages().top_level_buffers@, *src),
                *dst,
            ),
            final(self).resource_usages().top_level_textures@ == old(self).resource_usages().top_level_textures@,
            final(self).resource_usages().per_pass@ == old(self).resource_usages().per_pass@,
    {
        self.push(
            Command::CopyBufferToBuffer {
                src: BufferCopy { buffer: *src, offset: src_offset as u64, row_pitch: 0, image_height: 0 },
                dst: BufferCopy { buffer: *dst, offset: dst_offset as u64, row_pitch: 0, image_height: 0 },
                size_bytes: size_bytes as u64,
            },
        );
        self.resource_usages.insert_top_level_buffer(*src);
        self.resource_usages.insert_top_level_buffer(*dst);
    }

    /// Records a copy from a buffer to a texture.
    pub fn copy_buffer_to_texture(&mut self, src: BufferCopyView, dst: TextureCopyView, copy_size: Extent3D)
        requires
            old(self).wf(),
        ensures
            final(self).wf(),
            final(self).commands() == old(self).commands().push(
                Command::CopyBufferToTexture {
                    src: BufferCopy {
                        buffer: src.buffer,
                        offset: src.offset,
                        row_pitch: src.row_pitch,
                        image_height: src.image_height,
                    },
                    dst: TextureCopy {
                        texture: dst.texture,
                        mip_level: dst.mip_level,
                        array_layer: dst.array_layer,
                        origin_texels: dst.origin,
                    },
                    size_texels: copy_size,
                },
            ),
            final(self).resource_usages().top_level_buffers@ == spec_insert_buffer(
                old(self).resource_usages().top_level_buffers@,
                src.buffer,
            ),
            final(self).resource_usages().top_level_textures@ == spec_insert_texture(
                old(self).resource_usages().top_level_textures@,
                dst.texture,
            ),
            final(self).resource_usages().per_pass@ == old(self).resource_usages().per_pass@,
    {
        self.push(
            Command::CopyBufferToTexture {
                src: BufferCopy {
                    buffer: src.buffer,
                    offset: src.offset,
                    row_pitch: src.row_pitch,
                    image_height: src.image_height,
                },
                dst: TextureCopy {
                    texture: dst.texture,
                    mip_level: dst.mip_level,
                    array_layer: dst.array_layer,
                    origin_texels: dst.origin,
                },
                size_texels: copy_size,
            },
        );
        self.resource_usages.insert_top_level_buffer(src.buffer);
        self.resource_usages.insert_top_level_texture(dst.texture);
    }

    /// Records a copy between two textures.
    pub fn copy_texture_to_texture(&mut self, src: TextureCopyView, dst: TextureCopyView, copy_size: Extent3D)
        requires
            old(self).wf(),
        ensures
            final(self).wf(),
            final(self).commands() == old(self).commands().push(
                Command::CopyTextureToTexture {
                    src: TextureCopy {
                        texture: src.texture,
                        mip_level: src.mip_level,
                        array_layer: src.array_layer,
                        origin_texels: src.origin,
                    },
                    dst: TextureCopy {
                        texture: dst.texture,
                        mip_level: dst.mip_level,
                        array_layer: dst.array_layer,
                        origin_texels: dst.origin,
                    },
                    size_texels: copy_size,
                },
            ),
            final(self).resource_usages().top_level_buffers@ == old(self).resource_usages().top_level_buffers@,
            final(self).resource_usages().top_level_textures@ == spec_insert_texture(
                spec_insert_texture(old(self).resource_usages().top_level_textures@, src.texture),
                dst.texture,
            ),
            final(self).resource_usages().per_pass@ == old(self).resource_usages().per_pass@,
    {
        self.push(
            Command::CopyTextureToTexture {
                src: TextureCopy {
                    texture: src.texture,
                    mip_level: src.mip_level,
                    array_layer: src.array_layer,
                    origin_texels: src.origin,
                },
                dst: TextureCopy {
                    texture: dst.texture,
                    mip_level: dst.mip_level,
                    array_layer: dst.array_layer,
                    origin_texels: dst.origin,
                },
                size_texels: copy_size,
            },
        );
        self.resource_usages.insert_top_level_texture(src.texture);
        self.resource_usages.insert_top_level_texture(dst.texture);
    }

    /// Records a copy from a texture to a buffer.
    pub fn copy_texture_to_buffer(&mut self, src: TextureCopyView, dst: BufferCopyView, copy_size: Extent3D)
        requires
            old(self).wf(),
        ensures
            final(self).wf(),
            final(self).commands() == old(self).commands().push(
                Command::CopyTextureToBuffer {
                    src: TextureCopy {
                        texture: src.texture,
                        mip_level: src.mip_level,
                        array_layer: src.array_layer,
                        origin_texels: src.origin,
                    },
                    dst: BufferCopy {
                        buffer: dst.buffer,
                        offset: dst.offset,
                        row_pitch: dst.row_pitch,
                        image_height: dst.image_height,
                    },
                    size_texels: copy_size,
                },
            ),
            final(self).resource_usages().top_level_buffers@ == spec_insert_buffer(
                old(self).resource_usages().top_level_buffers@,
                dst.buffer,
            ),
            final(self).resource_usages().top_level_textures@ == spec_insert_texture(
                old(self).resource_usages().top_level_textures@,
                src.texture,
            ),
            final(self).resource_usages().per_pass@ == old(self).resource_usages().per_pass@,
    {
        self.push(
            Command::CopyTextureToBuffer {
                src: TextureCopy {
                    texture: src.texture,
                    mip_level: src.mip_level,
                    array_layer: src.array_layer,
                    origin_texels: src.origin,
                },
                dst: BufferCopy {
                    buffer: dst.buffer,
                    offset: dst.offset,
                    row_pitch: dst.row_pitch,
                    image_height: dst.image_height,
                },
                size_texels: copy_size,
            },
        );
        self.resource_usages.insert_top_level_texture(src.texture);
        self.resource_usages.insert_top_level_buffer(dst.buffer);
    }

    /// Records a scaled copy between two textures.
    pub fn blit_texture_to_texture(&mut self, src: TextureBlitView, dst: TextureBlitView, filter: FilterMode)
        requires
            old(self).wf(),
        ensures
            final(self).wf(),
            final(self).commands() == old(self).commands().push(
                Command::BlitTextureToTexture {
                    src: TextureBlit {
                        texture: src.texture,
                        mip_level: src.mip_level,
                        array_layer: src.array_layer,
                        bounds_texels: src.bounds,
                    },
                    dst: TextureBlit {
                        texture: dst.texture,
                        mip_level: dst.mip_level,
                        array_layer: dst.array_layer,
                        bounds_texels: dst.bounds,
                    },
                    filter,
                },
            ),
            final(self).resource_usages().top_level_buffers@ == old(self).resource_usages().top_level_buffers@,
            final(self).resource_usages().top_level_textures@ == spec_insert_texture(
                spec_insert_texture(old(self).resource_usages().top_level_textures@, src.texture),
                dst.texture,
            ),
            final(self).resource_usages().per_pass@ == old(self).resource_usages().per_pass@,
    {
        self.push(
            Command::BlitTextureToTexture {
                src: TextureBlit {
                    texture: src.texture,
                    mip_level: src.mip_level,
                    array_layer: src.array_layer,
                    bounds_texels: src.bounds,
                },
                dst: TextureBlit {
                    texture: dst.texture,
                    mip_level: dst.mip_level,
                    array_layer: dst.array_layer,
                    bounds_texels: dst.bounds,
                },
                filter,
            },
        );
        self.resource_usages.insert_top_level_texture(src.texture);
        self.resource_usages.insert_top_level_texture(dst.texture);
    }

    /// Opens a labelled debug group.
    pub fn push_debug_group(&mut self, group_label: &str)
        ensures
            final(self).resource_usages() == old(self).resource_usages(),
            appended(
                old(self).commands(),
                final(self).commands(),
                |c: Command| c matches Command::PushDebugGroup { group_label: l } && l@ == group_label@,
            ),
    {
        self.push(Command::PushDebugGroup { group_label: group_label.to_owned() });
    }

    /// Inserts a labelled debug marker.
    pub fn insert_debug_marker(&mut self, marker_label: &str)
        ensures
            final(self).resource_usages() == old(self).resource_usages(),
            appended(
                old(self).commands(),
                final(self).commands(),
                |c: Command| c matches Command::InsertDebugMarker { marker_label: l } && l@ == marker_label@,
            ),
    {
        self.push(Command::InsertDebugMarker { marker_label: marker_label.to_owned() });
    }

    /// Closes the innermost debug group.
    pub fn pop_debug_group(&mut self)
        ensures
            final(self).resource_usages() == old(self).resource_usages(),
            final(self).commands() == old(self).commands().push(Command::PopDebugGroup),
    {
        self.push(Command::PopDebugGroup);
    }

    /// Ends recording. Every encoder finishes.
    pub fn finish(self) -> (r: Result<CommandBuffer, Error>)
        ensures
            r matches Ok(cb) && cb.commands@ == self.commands() && cb.resource_usages
                == self.resource_usages(),
    {
        Ok(CommandBuffer { commands: command_arena_into_vec(self.commands), resource_usages: self.resource_usages })
    }

    /// Records the usages of a bind group's bindings in `usage_tracker` and
    /// the command that binds it.
    fn set_bind_group(
        &mut self,
        index: u32,
        bind_group: &BindGroup,
        dynamic_offsets: Option<&[usize]>,
        usage_tracker: &mut PassResourceUsageTracker,
    )
        requires
            old(usage_tracker).wf(),
            bind_group_valid(*bind_group),
            offsets_fit(dynamic_offsets),
        ensures
            final(usage_tracker).wf(),
            final(usage_tracker)@ == track_bindings(
                old(usage_tracker)@,
                bind_group.bindings@,
                bind_group.layout.bindings@,
                bind_group.bindings@.len(),
            ),
            final(self).resource_usages() == old(self).resource_usages(),
            appended(
                old(self).commands(),
                final(self).commands(),
                |c: Command|
                    c matches Command::SetBindGroup { index: i, bind_group: b, dynamic_offsets: d } && i
                        == index && b == bind_group.handle && offsets_as_u32(
                        match dynamic_offsets {
                            Some(o) => Some(o@),
                            None => None,
                        },
                        d,
                    ),
            ),
    {
        let layout_bindings = bind_group.layout.bindings.as_slice();
        let mut i: usize = 0;
        while i < bind_group.bindings.len()
            invariant
                i <= bind_group.bindings@.len(),
                layout_bindings@ == bind_group.layout.bindings@,
                bind_group_valid(*bind_group),
                usage_tracker.wf(),
                usage_tracker@ == track_bindings(
                    old(usage_tracker)@,
                    bind_group.bindings@,
                    bind_group.layout.bindings@,
                    i as nat,
                ),
            decreases bind_group.bindings@.len() - i,
        {
            let binding = bind_group.bindings[i];
            assert(binding_valid(bind_group.bindings@, bind_group.layout.bindings@, i as int));
            if let Some(layout_binding) = find_layout_binding(i, binding.binding, layout_bindings) {
                match layout_binding.binding_type {
                    BindingType::UniformBuffer | BindingType::DynamicUniformBuffer => {
                        if let BindingResource::Buffer(buffer, _) = binding.resource {
                            usage_tracker.buffer_used_as(buffer, BufferUsageFlags { bits: BUFFER_USAGE_UNIFORM });
                        }
                    },
                    BindingType::StorageBuffer | BindingType::DynamicStorageBuffer => {
                        if let BindingResource::Buffer(buffer, _) = binding.resource {
                            usage_tracker.buffer_used_as(buffer, BufferUsageFlags { bits: BUFFER_USAGE_STORAGE });
                        }
                    },
                    BindingType::SampledTexture => {
                        if let BindingResource::TextureView(view) = binding.resource {
                            usage_tracker.texture_used_as(
                                view.texture,
                                TextureUsageFlags { bits: TEXTURE_USAGE_SAMPLED },
                            );
                        }
                    },
                    BindingType::StorageTexelBuffer => {
                        if let BindingResource::BufferView(view) = binding.resource {
                            usage_tracker.buffer_used_as(view.buffer, BufferUsageFlags { bits: BUFFER_USAGE_STORAGE });
                        }
                    },
                    BindingType::Sampler => {},
                }
            }
            i = i + 1;
        }
        let offsets = convert_offsets(dynamic_offsets);
        self.push(Command::SetBindGroup { index, bind_group: bind_group.handle, dynamic_offsets: offsets });
    }

    /// Records push constants: the value's bytes at `offset_bytes`. Fails with
    /// a validation error when the value would end past the push constant space.
    fn set_push_constants(&mut self, stages: ShaderStageFlags, offset_bytes: usize, value: &[u8]) -> (r: Result<
        (),
        Error,
    >)
        requires
            offset_bytes + value@.len() <= usize::MAX,
        ensures
            r is Ok <==> push_constants_fit(offset_bytes, value@.len()),
            r matches Err(e) ==> e.kind == ErrorKind::Code(vk::RESULT_ERROR_VALIDATION_FAILED_EXT),
            r is Err ==> final(self).commands() == old(self).commands(),
            final(self).resource_usages() == old(self).resource_usages(),
            r is Ok ==> appended(
                old(self).commands(),
                final(self).commands(),
                |c: Command|
                    c matches Command::SetPushConstants { stages: s, offset_bytes: o, size_bytes: n, values } && s
                        == stages && o == offset_bytes && n == value@.len() && values@ == push_constant_bytes(
                        value@,
                    ),
            ),
    {
        let size_bytes = value.len();
        if size_bytes + offset_bytes > MAX_PUSH_CONSTANTS_SIZE {
            return Err(Error::validation_failed());
        }
        let mut values: Vec<u8> = Vec::new();
        let mut i: usize = 0;
        while i < MAX_PUSH_CONSTANTS_SIZE
            invariant
                i <= MAX_PUSH_CONSTANTS_SIZE,
                size_bytes == value@.len(),
                size_bytes <= MAX_PUSH_CONSTANTS_SIZE,
                values@.len() == i,
                forall|k: int| 0 <= k < i ==> values@[k] == push_constant_bytes(value@)[k],
            decreases MAX_PUSH_CONSTANTS_SIZE - i,
        {
            if i < size_bytes {
                values.push(value[i]);
            } else {
                values.push(0u8);
            }
            i = i + 1;
        }
        assert(values@ =~= push_constant_bytes(value@));
        self.push(
            Command::SetPushConstants {
                stages,
                offset_bytes: offset_bytes as u32,
                size_bytes: size_bytes as u32,
                values,
            },
        );
        Ok(())
    }
}

/// Records the commands of one compute pass and the resources it uses.
pub struct ComputePassEncoder {
    encoder: CommandEncoder,
    usage_tracker: PassResourceUsageTracker,
}

impl ComputePassEncoder {
    /// The commands of the encoder the pass records into.
    pub closed spec fn commands(&self) -> Seq<Command> {
        self.encoder.commands()
    }

    /// The resource usages of the encoder, without this pass.
    pub closed spec fn resource_usages(&self) -> CommandBufferResourceUsage {
        self.encoder.resource_usages()
    }

    /// What the pass has used so far.
    pub closed spec fn tracker(&self) -> TrackerView {
        self.usage_tracker@
    }

    pub closed spec fn wf(&self) -> bool {
        self.encoder.wf() && self.usage_tracker.wf()
    }

    fn begin_compute_pass(mut top_level_encoder: CommandEncoder) -> (r: ComputePassEncoder)
        requires
            top_level_encoder.wf(),
        ensures
            r.wf(),
            r.commands() == top_level_encoder.commands().push(Command::BeginComputePass),
            r.resource_usages() == top_level_encoder.resource_usages(),
            r.tracker() == empty_tracker(),
    {
        top_level_encoder.push(Command::BeginComputePass);
        ComputePassEncoder { encoder: top_level_encoder, usage_tracker: PassResourceUsageTracker::new() }
    }

    /// Ends the pass: its resource usage, which holds each buffer and texture
    /// the pass used once with the union of its usages, joins the encoder's,
    /// then the end of the pass is recorded.
    pub fn end_pass(self) -> (r: CommandEncoder)
        requires
            self.wf(),
        ensures
            r.wf(),
            r.commands() == self.commands().push(Command::EndComputePass),
            r.resource_usages().per_pass@.len() == self.resource_usages().per_pass@.len() + 1,
            r.resource_usages().per_pass@.drop_last() == self.resource_usages().per_pass@,
            r.resource_usages().per_pass@.last().buffers@ == self.tracker().buffers,
            r.resource_usages().per_pass@.last().textures@ == self.tracker().textures,
            holds_buffer_usage_union(self.tracker().buffer_uses, r.resource_usages().per_pass@.last().buffers@),
            holds_texture_usage_union(self.tracker().texture_uses, r.resource_usages().per_pass@.last().textures@),
            r.resource_usages().top_level_buffers@ == self.resource_usages().top_level_buffers@,
            r.resource_usages().top_level_textures@ == self.resource_usages().top_level_textures@,
    {
        proof {
            lemma_pass_usage_is_union(self.tracker());
        }
        let ComputePassEncoder { mut encoder, mut usage_tracker } = self;
        let usage = usage_tracker.acquire_resource_usage();
        encoder.resource_usages.push_pass(usage);
        encoder.push(Command::EndComputePass);
        encoder
    }

    pub fn set_pipeline(&mut self, pipeline: &ComputePipeline)
        ensures
            final(self).wf() == old(self).wf(),
            final(self).commands() == old(self).commands().push(Command::SetComputePipeline { pipeline: *pipeline }),
            final(self).resource_usages() == old(self).resource_usages(),
            final(self).tracker() == old(self).tracker(),
    {
        self.encoder.push(Command::SetComputePipeline { pipeline: *pipeline });
    }

    /// Binds a bind group; its resources count as used by the pass.
    pub fn set_bind_group(&mut self, index: u32, bind_group: &BindGroup, dynamic_offsets: Option<&[usize]>)
        requires
            old(self).wf(),
            bind_group_valid(*bind_group),
            offsets_fit(dynamic_offsets),
        ensures
            final(self).wf(),
            final(self).tracker() == track_bindings(
                old(self).tracker(),
                bind_group.bindings@,
                bind_group.layout.bindings@,
                bind_group.bindings@.len(),
            ),
            final(self).resource_usages() == old(self).resource_usages(),
            appended(
                old(self).commands(),
                final(self).commands(),
                |c: Command|
                    c matches Command::SetBindGroup { index: i, bind_group: b, dynamic_offsets: d } && i
                        == index && b == bind_group.handle && offsets_as_u32(
                        match dynamic_offsets {
                            Some(o) => Some(o@),
                            None => None,
                        },
                        d,
                    ),
            ),
    {
        self.encoder.set_bind_group(index, bind_group, dynamic_offsets, &mut self.usage_tracker);
    }

    /// Sets push constants; fails with a validation error when the value would
    /// end past the push constant space.
    pub fn set_push_constants(&mut self, stages: ShaderStageFlags, offset_bytes: usize, value: &[u8]) -> (r: Result<
        (),
        Error,
    >)
        requires
            offset_bytes + value@.len() <= usize::MAX,
        ensures
            final(self).wf() == old(self).wf(),
            r is Ok <==> push_constants_fit(offset_bytes, value@.len()),
            r matches Err(e) ==> e.kind == ErrorKind::Code(vk::RESULT_ERROR_VALIDATION_FAILED_EXT),
            r is Err ==> final(self).commands() == old(self).commands(),
            final(self).resource_usages() == old(self).resource_usages(),
            final(self).tracker() == old(self).tracker(),
            r is Ok ==> appended(
                old(self).commands(),
                final(self).commands(),
                |c: Command|
                    c matches Command::SetPushConstants { stages: s, offset_bytes: o, size_bytes: n, values } && s
                        == stages && o == offset_bytes && n == value@.len() && values@ == push_constant_bytes(
                        value@,
                    ),
            ),
    {
        self.encoder.set_push_constants(stages, offset_bytes, value)
    }

    pub fn dispatch(&mut self, x: u32, y: u32, z: u32)
        ensures
            final(self).wf() == old(self).wf(),
            final(self).commands() == old(self).commands().push(Command::Dispatch { x, y, z }),
            final(self).resource_usages() == old(self).resource_usages(),
            final(self).tracker() == old(self).tracker(),
    {
        self.encoder.push(Command::Dispatch { x, y, z });
    }

    pub fn dispatch_indirect(&mut self, buffer: &Buffer, indirect_offset: usize)
        ensures
            final(self).wf() == old(self).wf(),
            final(self).commands() == old(self).commands().push(
                Command::DispatchIndirect { buffer: *buffer, indirect_offset: indirect_offset as u64 },
            ),
            final(self).resource_usages() == old(self).resource_usages(),
            final(self).tracker() == old(self).tracker(),
    {
        self.encoder.push(Command::DispatchIndirect { buffer: *buffer, indirect_offset: indirect_offset as u64 });
    }

    pub fn push_debug_group(&mut self, group_label: &str)
        ensures
            final(self).wf() == old(self).wf(),
            final(self).resource_usages() == old(self).resource_usages(),
            final(self).tracker() == old(self).tracker(),
            appended(
                old(self).commands(),
                final(self).commands(),
                |c: Command| c matches Command::PushDebugGroup { group_label: l } && l@ == group_label@,
            ),
    {
        self.encoder.push_debug_group(group_label);
    }

    pub fn insert_debug_marker(&mut self, marker_label: &str)
        ensures
            final(self).wf() == old(self).wf(),
            final(self).resource_usages() == old(self).resource_usages(),
            final(self).tracker() == old(self).tracker(),
            appended(
                old(self).commands(),
                final(self).commands(),
                |c: Command| c matches Command::InsertDebugMarker { marker_label: l } && l@ == marker_label@,
            ),
    {
        self.encoder.insert_debug_marker(marker_label);
    }

    pub fn pop_debug_group(&mut self)
        ensures
            final(self).wf() == old(self).wf(),
            final(self).commands() == old(self).commands().push(Command::PopDebugGroup),
            final(self).resource_usages() == old(self).resource_usages(),
            final(self).tracker() == old(self).tracker(),
    {
        self.encoder.pop_debug_group();
    }
}

/// Records the commands of one render pass and the resources it uses.
pub struct RenderPassEncoder {
    encoder: CommandEncoder,
    usage_tracker: PassResourceUsageTracker,
}

impl RenderPassEncoder {
    /// The commands of the encoder the pass records into.
    pub closed spec fn commands(&self) -> Seq<Command> {
        self.encoder.commands()
    }

    /// The resource usages of the encoder, without this pass.
    pub closed spec fn resource_usages(&self) -> CommandBufferResourceUsage {
        self.encoder.resource_usages()
    }

    /// What the pass has used so far.
    pub closed spec fn tracker(&self) -> TrackerView {
        self.usage_tracker@
    }

    pub closed spec fn wf(&self) -> bool {
        self.encoder.wf() && self.usage_tracker.wf()
    }

    fn begin_render_pass(mut top_level_encoder: CommandEncoder, descriptor: RenderPassDescriptor) -> (r: RenderPassEncoder)
        requires
            top_level_encoder.wf(),
            render_pass_views_valid(descriptor),
        ensures
            r.wf(),
            r.resource_usages() == top_level_encoder.resource_usages(),
            r.tracker() == render_pass_usage(descriptor),
            appended(
                top_level_encoder.commands(),
                r.commands(),
                |c: Command|
                    c matches Command::BeginRenderPass {
                        color_attachments,
                        depth_stencil_attachment,
                        width,
                        height,
                        sample_count,
                    } && color_attachments@ == descriptor.color_attachments@ && depth_stencil_attachment
                        == descriptor.depth_stencil_attachment && (sample_count, width, height)
                        == render_pass_extent(descriptor),
            ),
    {
        let colors = &descriptor.color_attachments;
        let out = TextureUsageFlags { bits: TEXTURE_USAGE_OUTPUT_ATTACHMENT };
        let mut usage_tracker = PassResourceUsageTracker::new();
        let mut i: usize = 0;
        while i < colors.len()
            invariant
                i <= colors@.len(),
                usage_tracker.wf(),
                usage_tracker@ == track_color_targets(empty_tracker(), colors@, i as nat),
                out.bits == TEXTURE_USAGE_OUTPUT_ATTACHMENT,
            decreases colors@.len() - i,
        {
            let info = colors[i];
            usage_tracker.texture_used_as(info.attachment.texture, out);
            if let Some(resolve_target) = info.resolve_target {
                usage_tracker.texture_used_as(resolve_target.texture, out);
            }
            i = i + 1;
        }
        if let Some(info) = descriptor.depth_stencil_attachment {
            usage_tracker.texture_used_as(info.attachment.texture, out);
        }
        let mut acc: Option<(u32, u32, u32)> = None;
        let ghost mut seen: Seq<TextureView> = Seq::empty();
        let mut i: usize = 0;
        while i < colors.len()
            invariant
                i <= colors@.len(),
                render_pass_views_valid(descriptor),
                colors@ == descriptor.color_attachments@,
                seen == colors@.take(i as int).map_values(|c: RenderPassColorAttachmentDescriptor| c.attachment),
                acc == views_extent(seen),
            decreases colors@.len() - i,
        {
            assert(colors@[i as int].attachment.descriptor.base_mip_level < 32);
            proof {
                lemma_views_extent_push(seen, colors@[i as int].attachment);
                assert(colors@.take(i + 1).map_values(|c: RenderPassColorAttachmentDescriptor| c.attachment) =~= seen.push(
                    colors@[i as int].attachment,
                ));
                seen = seen.push(colors@[i as int].attachment);
            }
            acc = fold_view(acc, &colors[i].attachment);
            i = i + 1;
        }
        proof {
            assert(colors@.take(colors@.len() as int) =~= colors@);
        }
        let ghost depth_views = match descriptor.depth_stencil_attachment {
            Some(a) => seq![a.attachment],
            None => Seq::<TextureView>::empty(),
        };
        if let Some(a) = descriptor.depth_stencil_attachment {
            proof {
                lemma_views_extent_push(seen, a.attachment);
                assert(seen + depth_views =~= seen.push(a.attachment));
            }
            acc = fold_view(acc, &a.attachment);
        } else {
            assert(seen + depth_views =~= seen);
        }
        let ghost base = seen + depth_views;
        let mut i: usize = 0;
        while i < colors.len()
            invariant
                i <= colors@.len(),
                render_pass_views_valid(descriptor),
                colors@ == descriptor.color_attachments@,
                acc == views_extent(base + resolve_views(colors@, i as nat)),
            decreases colors@.len() - i,
        {
            assert(colors@[i as int].resolve_target matches Some(v) ==> v.descriptor.base_mip_level < 32);
            let ghost r = resolve_views(colors@, i as nat);
            if let Some(view) = colors[i].resolve_target {
                proof {
                    lemma_views_extent_push(base + r, view);
                    assert(base + r.push(view) =~= (base + r).push(view));
                }
                acc = fold_view(acc, &view);
            }
            i = i + 1;
        }
        assert(base + resolve_views(colors@, colors@.len()) =~= render_pass_views(descriptor));
        let (sample_count, width, height) = match acc {
            Some((s, w, h)) => (if s < 1 { 1 } else { s }, if w < 1 { 1 } else { w }, if h < 1 { 1 } else { h }),
            None => (1, 1, 1),
        };
        let RenderPassDescriptor { color_attachments, depth_stencil_attachment } = descriptor;
        top_level_encoder.push(
            Command::BeginRenderPass {
                color_attachments,
                depth_stencil_attachment,
                sample_count,
                width,
                height,
            },
        );
        RenderPassEncoder { encoder: top_level_encoder, usage_tracker }
    }

    /// Ends the pass: its resource usage, which holds each buffer and texture
    /// the pass used once with the union of its usages, joins the encoder's,
    /// then the end of the pass is recorded.
    pub fn end_pass(self) -> (r: CommandEncoder)
        requires
            self.wf(),
        ensures
            r.wf(),
            r.commands() == self.commands().push(Command::EndRenderPass),
            r.resource_usages().per_pass@.len() == self.resource_usages().per_pass@.len() + 1,
            r.resource_usages().per_pass@.drop_last() == self.resource_usages().per_pass@,
            r.resource_usages().per_pass@.last().buffers@ == self.tracker().buffers,
            r.resource_usages().per_pass@.last().textures@ == self.tracker().textures,
            holds_buffer_usage_union(self.tracker().buffer_uses, r.resource_usages().per_pass@.last().buffers@),
            holds_texture_usage_union(self.tracker().texture_uses, r.resource_usages().per_pass@.last().textures@),
            r.resource_usages().top_level_buffers@ == self.resource_usages().top_level_buffers@,
            r.resource_usages().top_level_textures@ == self.resource_usages().top_level_textures@,
    {
        proof {
            lemma_pass_usage_is_union(self.tracker());
        }
        let RenderPassEncoder { mut encoder, mut usage_tracker } = self;
        let usage = usage_tracker.acquire_resource_usage();
        encoder.resource_usages.push_pass(usage);
        encoder.push(Command::EndRenderPass);
        encoder
    }

    /// Binds a bind group; its resources count as used by the pass.
    pub fn set_bind_group(&mut self, index: u32, bind_group: &BindGroup, dynamic_offsets: Option<&[usize]>)
        requires
            old(self).wf(),
            bind_group_valid(*bind_group),
            offsets_fit(dynamic_offsets),
        ensures
            final(self).wf(),
            final(self).tracker() == track_bindings(
                old(self).tracker(),
                bind_group.bindings@,
                bind_group.layout.bindings@,
                bind_group.bindings@.len(),
            ),
            final(self).resource_usages() == old(self).resource_usages(),
            appended(
                old(self).commands(),
                final(self).commands(),
                |c: Command|
                    c matches Command::SetBindGroup { index: i, bind_group: b, dynamic_offsets: d } && i
                        == index && b == bind_group.handle && offsets_as_u32(
                        match dynamic_offsets {
                            Some(o) => Some(o@),
                            None => None,
                        },
                        d,
                    ),
            ),
    {
        self.encoder.set_bind_group(index, bind_group, dynamic_offsets, &mut self.usage_tracker);
    }

    /// Binds an index buffer, used by the pass as an index buffer.
    pub fn set_index_buffer(&mut self, buffer: &Buffer, offset: usize)
        requires
            old(self).wf(),
            offset <= u32::MAX,
        ensures
            final(self).wf(),
            final(self).tracker() == spec_buffer_used_as(
                old(self).tracker(),
                *buffer,
                BufferUsageFlags { bits: BUFFER_USAGE_INDEX },
            ),
            final(self).commands() == old(self).commands().push(
                Command::SetIndexBuffer { buffer: *buffer, offset: offset as u32 },
            ),
            final(self).resource_usages() == old(self).resource_usages(),
    {
        self.usage_tracker.buffer_used_as(*buffer, BufferUsageFlags { bits: BUFFER_USAGE_INDEX });
        self.encoder.push(Command::SetIndexBuffer { buffer: *buffer, offset: offset as u32 });
    }

    /// Binds vertex buffers from `start_slot` on, each at its offset; they are
    /// used by the pass as vertex buffers. There is one offset per buffer.
    pub fn set_vertex_buffers(&mut self, start_slot: u32, buffers: &[Buffer], offsets: &[usize])
        requires
            old(self).wf(),
            buffers@.len() == offsets@.len(),
        ensures
            final(self).wf(),
            final(self).tracker() == track_vertex_buffers(old(self).tracker(), buffers@, buffers@.len()),
            final(self).resource_usages() == old(self).resource_usages(),
            appended(
                old(self).commands(),
                final(self).commands(),
                |c: Command|
                    c matches Command::SetVertexBuffers { start_slot: s, buffers: b, offsets: o } && s
                        == start_slot && b@ == buffers@ && o@.len() == offsets@.len() && forall|j: int|
                        0 <= j < offsets@.len() ==> o@[j] == offsets@[j],
            ),
    {
        let mut buffers_vec: Vec<Buffer> = Vec::new();
        let mut i: usize = 0;
        while i < buffers.len()
            invariant
                i <= buffers@.len(),
                buffers_vec@ == buffers@.take(i as int),
                self.usage_tracker.wf(),
                self.usage_tracker@ == track_vertex_buffers(old(self).usage_tracker@, buffers@, i as nat),
                self.encoder == old(self).encoder,
            decreases buffers@.len() - i,
        {
            buffers_vec.push(buffers[i]);
            self.usage_tracker.buffer_used_as(buffers[i], BufferUsageFlags { bits: BUFFER_USAGE_VERTEX });
            assert(buffers@.take(i + 1) == buffers@.take(i as int).push(buffers@[i as int]));
            i = i + 1;
        }
        assert(buffers@.take(i as int) == buffers@);
        let mut offsets_vec: Vec<u64> = Vec::new();
        let mut j: usize = 0;
        while j < offsets.len()
            invariant
                j <= offsets@.len(),
                offsets_vec@.len() == j,
                forall|k: int| 0 <= k < j ==> offsets_vec@[k] == offsets@[k],
            decreases offsets@.len() - j,
        {
            offsets_vec.push(offsets[j] as u64);
            j = j + 1;
        }
        self.encoder.push(Command::SetVertexBuffers { start_slot, buffers: buffers_vec, offsets: offsets_vec });
    }

    pub fn set_pipeline(&mut self, pipeline: &RenderPipeline)
        ensures
            final(self).wf() == old(self).wf(),
            final(self).commands() == old(self).commands().push(Command::SetRenderPipeline { pipeline: *pipeline }),
            final(self).resource_usages() == old(self).resource_usages(),
            final(self).tracker() == old(self).tracker(),
    {
        self.encoder.push(Command::SetRenderPipeline { pipeline: *pipeline });
    }

    /// Sets the blend constant color, given as bit patterns.
    pub fn set_blend_color(&mut self, color: ColorBits)
        ensures
            final(self).wf() == old(self).wf(),
            final(self).commands() == old(self).commands().push(Command::SetBlendColor { color }),
            final(self).resource_usages() == old(self).resource_usages(),
            final(self).tracker() == old(self).tracker(),
    {
        self.encoder.push(Command::SetBlendColor { color });
    }

    pub fn set_stencil_reference(&mut self, reference: u32)
        ensures
            final(self).wf() == old(self).wf(),
            final(self).commands() == old(self).commands().push(Command::SetStencilReference { reference }),
            final(self).resource_usages() == old(self).resource_usages(),
            final(self).tracker() == old(self).tracker(),
    {
        self.encoder.push(Command::SetStencilReference { reference });
    }

    /// Sets the viewport; each value is given as its IEEE-754 single precision
    /// bit pattern.
    pub fn set_viewport(
        &mut self,
        x_bits: u32,
        y_bits: u32,
        width_bits: u32,
        height_bits: u32,
        min_depth_bits: u32,
        max_depth_bits: u32,
    )
        ensures
            final(self).wf() == old(self).wf(),
            final(self).commands() == old(self).commands().push(
                Command::SetViewport { x_bits, y_bits, width_bits, height_bits, min_depth_bits, max_depth_bits },
            ),
            final(self).resource_usages() == old(self).resource_usages(),
            final(self).tracker() == old(self).tracker(),
    {
        self.encoder.push(
            Command::SetViewport { x_bits, y_bits, width_bits, height_bits, min_depth_bits, max_depth_bits },
        );
    }

    pub fn set_scissor_rect(&mut self, x: u32, y: u32, width: u32, height: u32)
        ensures
            final(self).wf() == old(self).wf(),
            final(self).commands() == old(self).commands().push(Command::SetScissorRect { x, y, width, height }),
            final(self).resource_usages() == old(self).resource_usages(),
            final(self).tracker() == old(self).tracker(),
    {
        self.encoder.push(Command::SetScissorRect { x, y, width, height });
    }

    pub fn draw(&mut self, vertex_count: u32, instance_count: u32, first_vertex: u32, first_instance: u32)
        ensures
            final(self).wf() == old(self).wf(),
            final(self).commands() == old(self).commands().push(
                Command::Draw { vertex_count, instance_count, first_vertex, first_instance },
            ),
            final(self).resource_usages() == old(self).resource_usages(),
            final(self).tracker() == old(self).tracker(),
    {
        self.encoder.push(Command::Draw { vertex_count, instance_count, first_vertex, first_instance });
    }

    pub fn draw_indexed(
        &mut self,
        index_count: u32,
        instance_count: u32,
        first_index: u32,
        base_vertex: i32,
        first_instance: u32,
    )
        ensures
            final(self).wf() == old(self).wf(),
            final(self).commands() == old(self).commands().push(
                Command::DrawIndexed { index_count, instance_count, first_index, base_vertex, first_instance },
            ),
            final(self).resource_usages() == old(self).resource_usages(),
            final(self).tracker() == old(self).tracker(),
    {
        self.encoder.push(
            Command::DrawIndexed { index_count, instance_count, first_index, base_vertex, first_instance },
        );
    }

    pub fn draw_indirect(&mut self, buffer: &Buffer, indirect_offset: usize)
        ensures
            final(self).wf() == old(self).wf(),
            final(self).commands() == old(self).commands().push(
                Command::DrawIndirect { buffer: *buffer, indirect_offset: indirect_offset as u64 },
            ),
            final(self).resource_usages() == old(self).resource_usages(),
            final(self).tracker() == old(self).tracker(),
    {
        self.encoder.push(Command::DrawIndirect { buffer: *buffer, indirect_offset: indirect_offset as u64 });
    }

    pub fn draw_indexed_indirect(&mut self, buffer: &Buffer, indirect_offset: usize)
        ensures
            final(self).wf() == old(self).wf(),
            final(self).commands() == old(self).commands().push(
                Command::DrawIndexedIndirect { buffer: *buffer, indirect_offset: indirect_offset as u64 },
            ),
            final(self).resource_usages() == old(self).resource_usages(),
            final(self).tracker() == old(self).tracker(),
    {
        self.encoder.push(
            Command::DrawIndexedIndirect { buffer: *buffer, indirect_offset: indirect_offset as u64 },
        );
    }

    /// Sets push constants; fails with a validation error when the value would
    /// end past the push constant space.
    pub fn set_push_constants(&mut self, stages: ShaderStageFlags, offset_bytes: usize, value: &[u8]) -> (r: Result<
        (),
        Error,
    >)
        requires
            offset_bytes + value@.len() <= usize::MAX,
        ensures
            final(self).wf() == old(self).wf(),
            r is Ok <==> push_constants_fit(offset_bytes, value@.len()),
            r matches Err(e) ==> e.kind == ErrorKind::Code(vk::RESULT_ERROR_VALIDATION_FAILED_EXT),
            r is Err ==> final(self).commands() == old(self).commands(),
            final(self).resource_usages() == old(self).resource_usages(),
            final(self).tracker() == old(self).tracker(),
            r is Ok ==> appended(
                old(self).commands(),
                final(self).commands(),
                |c: Command|
                    c matches Command::SetPushConstants { stages: s, offset_bytes: o, size_bytes: n, values } && s
                        == stages && o == offset_bytes && n == value@.len() && values@ == push_constant_bytes(
                        value@,
                    ),
            ),
    {
        self.encoder.set_push_constants(stages, offset_bytes, value)
    }

    pub fn push_debug_group(&mut self, group_label: &str)
        ensures
            final(self).wf() == old(self).wf(),
            final(self).resource_usages() == old(self).resource_usages(),
            final(self).tracker() == old(self).tracker(),
            appended(
                old(self).commands(),
                final(self).commands(),
                |c: Command| c matches Command::PushDebugGroup { group_label: l } && l@ == group_label@,
            ),
    {
        self.encoder.push_debug_group(group_label);
    }

    pub fn insert_debug_marker(&mut self, marker_label: &str)
        ensures
            final(self).wf() == old(self).wf(),
            final(self).resource_usages() == old(self).resource_usages(),
            final(self).tracker() == old(self).tracker(),
            appended(
                old(self).commands(),
                final(self).commands(),
                |c: Command| c matches Command::InsertDebugMarker { marker_label: l } && l@ == marker_label@,
            ),
    {
        self.encoder.insert_debug_marker(marker_label);
    }

    pub fn pop_debug_group(&mut self)
        ensures
            final(self).wf() == old(self).wf(),
            final(self).commands() == old(self).commands().push(Command::PopDebugGroup),
            final(self).resource_usages() == old(self).resource_usages(),
            final(self).tracker() == old(self).tracker(),
    {
        self.encoder.pop_debug_group();
    }
}

impl Device {
    /// An encoder that has recorded nothing. Always succeeds.
    pub fn create_command_encoder(&self) -> (r: Result<CommandEncoder, Error>)
        ensures
            r matches Ok(e) && e.wf() && e.commands() == Seq::<Command>::empty()
                && e.resource_usages().per_pass@.len() == 0
                && e.resource_usages().top_level_buffers@.len() == 0
                && e.resource_usages().top_level_textures@.len() == 0,
    {
        Ok(CommandEncoder::new())
    }
}

} // verus!
