use vstd::prelude::*;

use crate::error::Error;
use crate::texture::spec_image_format;
use crate::texture::image_format;
use crate::types::{LoadOp, TextureFormat};
use crate::vk;
use smallvec::SmallVec;

verus! {

pub const MAX_COLOR_ATTACHMENTS: usize = 4;

#[derive(Clone, Copy, Debug, PartialEq, Eq, Structural, Hash)]
pub struct DepthStencilInfo {
    pub format: TextureFormat,
    pub depth_load_op: LoadOp,
    pub stencil_load_op: LoadOp,
}

#[derive(Clone, Copy, Debug, PartialEq, Eq, Structural, Hash)]
pub struct ColorInfo {
    pub format: TextureFormat,
    pub load_op: LoadOp,
    pub has_resolve_target: bool,
}

/// The color targets of a query, held in a `smallvec::SmallVec` with room
/// for four inline.
#[verifier::external_body]
#[derive(Debug)]
pub struct ColorInfos {
    inner: SmallVec<[ColorInfo; 4]>,
}

/// The color targets a `ColorInfos` holds, in order.
pub uninterp spec fn color_infos(v: ColorInfos) -> Seq<ColorInfo>;

/// `smallvec::SmallVec::new`: a vector that holds nothing yet.
#[verifier::external_body]
fn new_color_infos() -> (r: ColorInfos)
    ensures
        color_infos(r) == Seq::<ColorInfo>::empty(),
{
    ColorInfos { inner: SmallVec::new() }
}

/// `smallvec::SmallVec::push`: appends the color target after the others.
/// The vector panics only when the capacity it grows to would overflow
/// `usize`; that bound is left unsaid here.
#[verifier::external_body]
fn push_color_info(v: &mut ColorInfos, color_info: ColorInfo)
    ensures
        color_infos(*final(v)) == color_infos(*old(v)).push(color_info),
{
    v.inner.push(color_info);
}

/// `smallvec::SmallVec::as_slice`: the color targets, in order.
#[verifier::external_body]
fn color_infos_slice(v: &ColorInfos) -> (r: &[ColorInfo])
    ensures
        r@ == color_infos(*v),
{
    v.inner.as_slice()
}

/// `Clone::clone` of `smallvec::SmallVec`: a vector of the same color targets,
/// built from the slice of this one.
#[verifier::external_body]
fn clone_color_infos(v: &ColorInfos) -> (r: ColorInfos)
    ensures
        color_infos(r) == color_infos(*v),
{
    ColorInfos { inner: v.inner.clone() }
}

/// What identifies a compatible render pass: its color targets, its depth
/// stencil target and its sample count.
#[derive(Debug)]
pub struct RenderPassCacheQuery {
    pub color: ColorInfos,
    pub depth_stencil: Option<DepthStencilInfo>,
    pub sample_count: u32,
}

impl Clone for RenderPassCacheQuery {
    fn clone(&self) -> (r: Self)
        ensures
            r.colors() == self.colors(),
            r.depth_stencil == self.depth_stencil,
            r.sample_count == self.sample_count,
    {
        RenderPassCacheQuery {
            color: clone_color_infos(&self.color),
            depth_stencil: self.depth_stencil,
            sample_count: self.sample_count,
        }
    }
}

impl RenderPassCacheQuery {
    /// The color targets, in order.
    pub open spec fn colors(&self) -> Seq<ColorInfo> {
        color_infos(self.color)
    }

    /// The color targets, in order.
    pub fn color_targets(&self) -> (r: &[ColorInfo])
        ensures
            r@ == self.colors(),
    {
        color_infos_slice(&self.color)
    }

    /// A query without targets and a sample count of zero.
    pub fn new() -> (r: Self)
        ensures
            r.colors() == Seq::<ColorInfo>::empty(),
            r.depth_stencil.is_none(),
            r.sample_count == 0,
    {
        RenderPassCacheQuery { color: new_color_infos(), depth_stencil: None, sample_count: 0 }
    }

    pub fn add_color(&mut self, color_info: ColorInfo)
        ensures
            final(self).colors() == old(self).colors().push(color_info),
            final(self).depth_stencil == old(self).depth_stencil,
            final(self).sample_count == old(self).sample_count,
    {
        push_color_info(&mut self.color, color_info);
    }

    pub fn set_sample_count(&mut self, sample_count: u32)
        ensures
            final(self).colors() == old(self).colors(),
            final(self).depth_stencil == old(self).depth_stencil,
            final(self).sample_count == sample_count,
    {
        self.sample_count = sample_count;
    }

    pub fn set_depth_stencil(&mut self, depth_stencil_info: DepthStencilInfo)
        ensures
            final(self).colors() == old(self).colors(),
            final(self).depth_stencil == Some(depth_stencil_info),
            final(self).sample_count == old(self).sample_count,
    {
        self.depth_stencil = Some(depth_stencil_info);
    }

    /// The two queries ask for the same render pass.
    pub open spec fn same(&self, other: &Self) -> bool {
        self.colors() == other.colors() && self.depth_stencil == other.depth_stencil
            && self.sample_count == other.sample_count
    }

    pub fn eq(&self, other: &Self) -> (r: bool)
        ensures
            r == self.same(other),
    {
        let mine = color_infos_slice(&self.color);
        let theirs = color_infos_slice(&other.color);
        if self.sample_count != other.sample_count || self.depth_stencil != other.depth_stencil
            || mine.len() != theirs.len() {
            return false;
        }
        let mut i: usize = 0;
        while i < mine.len()
            invariant
                i <= mine@.len(),
                mine@.len() == theirs@.len(),
                mine@ == self.colors(),
                theirs@ == other.colors(),
                forall|j: int| 0 <= j < i ==> mine@[j] == theirs@[j],
            decreases mine@.len() - i,
        {
            if mine[i] != theirs[i] {
                return false;
            }
            i = i + 1;
        }
        assert(mine@ =~= theirs@);
        true
    }
}

pub open spec fn spec_attachment_load_op(op: LoadOp) -> i32 {
    match op {
        LoadOp::Clear => vk::ATTACHMENT_LOAD_OP_CLEAR,
        LoadOp::Load => vk::ATTACHMENT_LOAD_OP_LOAD,
    }
}

/// Each `LoadOp` becomes the Vulkan value named for it.
pub proof fn lemma_attachment_load_op_names()
    ensures
        spec_attachment_load_op(LoadOp::Clear) == vk::ATTACHMENT_LOAD_OP_CLEAR,
        spec_attachment_load_op(LoadOp::Load) == vk::ATTACHMENT_LOAD_OP_LOAD,
{
}

/// Distinct `LoadOp` values never become the same Vulkan value.
pub proof fn lemma_attachment_load_op_injective(a: LoadOp, b: LoadOp)
    ensures
        spec_attachment_load_op(a) == spec_attachment_load_op(b) ==> a == b,
{
}

pub fn attachment_load_op(op: LoadOp) -> (r: i32)
    ensures
        r == spec_attachment_load_op(op),
{
    match op {
        LoadOp::Clear => vk::ATTACHMENT_LOAD_OP_CLEAR,
        LoadOp::Load => vk::ATTACHMENT_LOAD_OP_LOAD,
    }
}

/// Sample counts that Vulkan accepts: the powers of two from 1 to 64.
pub open spec fn valid_sample_count(n: u32) -> bool {
    n == 1 || n == 2 || n == 4 || n == 8 || n == 16 || n == 32 || n == 64
}

/// The Vulkan sample count bit for a sample count; any other count fails with
/// a validation error.
pub fn sample_count(count: u32) -> (r: Result<u32, Error>)
    ensures
        valid_sample_count(count) ==> r == Ok::<u32, Error>(count),
        !valid_sample_count(count) ==> (r matches Err(e) && e.kind
            == crate::error::ErrorKind::Code(vk::RESULT_ERROR_VALIDATION_FAILED_EXT)),
{
    if count == 1 || count == 2 || count == 4 || count == 8 || count == 16 || count == 32
        || count == 64 {
        Ok(count)
    } else {
        Err(Error::validation_failed())
    }
}

#[derive(Clone, Copy, Debug, PartialEq, Eq, Structural, Hash)]
pub struct AttachmentReference {
    pub attachment: u32,
    pub layout: i32,
}

#[derive(Clone, Copy, Debug, PartialEq, Eq, Structural, Hash)]
pub struct AttachmentDescription {
    pub format: i32,
    pub samples: u32,
    pub load_op: i32,
    pub store_op: i32,
    pub stencil_load_op: i32,
    pub stencil_store_op: i32,
    pub initial_layout: i32,
    pub final_layout: i32,
}

/// Attachment references, held in a `smallvec::SmallVec` with room for one
/// per color target inline.
#[verifier::external_body]
#[derive(Debug)]
pub struct AttachmentReferences {
    inner: SmallVec<[AttachmentReference; 4]>,
}

/// The references an `AttachmentReferences` holds, in order.
pub uninterp spec fn held_references(v: AttachmentReferences) -> Seq<AttachmentReference>;

/// `smallvec::SmallVec::new`: a vector that holds nothing yet.
#[verifier::external_body]
fn new_references() -> (r: AttachmentReferences)
    ensures
        held_references(r) == Seq::<AttachmentReference>::empty(),
{
    AttachmentReferences { inner: SmallVec::new() }
}

/// `smallvec::SmallVec::push`: appends the reference after the others. The
/// vector panics only when the capacity it grows to would overflow `usize`;
/// that bound is left unsaid here.
#[verifier::external_body]
fn push_reference(v: &mut AttachmentReferences, reference: AttachmentReference)
    ensures
        held_references(*final(v)) == held_references(*old(v)).push(reference),
{
    v.inner.push(reference);
}

/// `smallvec::SmallVec::as_slice`: the references, in order.
#[verifier::external_body]
fn references_slice(v: &AttachmentReferences) -> (r: &[AttachmentReference])
    ensures
        r@ == held_references(*v),
{
    v.inner.as_slice()
}

/// Attachment descriptions, held in a `smallvec::SmallVec` with room for a
/// color and a resolve attachment per color target and a depth stencil
/// attachment inline.
#[verifier::external_body]
#[derive(Debug)]
pub struct AttachmentDescriptions {
    inner: SmallVec<[AttachmentDescription; 9]>,
}

/// The descriptions an `AttachmentDescriptions` holds, in order.
pub uninterp spec fn held_descriptions(v: AttachmentDescriptions) -> Seq<AttachmentDescription>;

/// `smallvec::SmallVec::new`: a vector that holds nothing yet.
#[verifier::external_body]
fn new_descriptions() -> (r: AttachmentDescriptions)
    ensures
        held_descriptions(r) == Seq::<AttachmentDescription>::empty(),
{
    AttachmentDescriptions { inner: SmallVec::new() }
}

/// `smallvec::SmallVec::push`: appends the description after the others. The
/// vector panics only when the capacity it grows to would overflow `usize`;
/// that bound is left unsaid here.
#[verifier::external_body]
fn push_description(v: &mut AttachmentDescriptions, description: AttachmentDescription)
    ensures
        held_descriptions(*final(v)) == held_descriptions(*old(v)).push(description),
{
    v.inner.push(description);
}

/// `smallvec::SmallVec::as_slice`: the descriptions, in order.
#[verifier::external_body]
fn descriptions_slice(v: &AttachmentDescriptions) -> (r: &[AttachmentDescription])
    ensures
        r@ == held_descriptions(*v),
{
    v.inner.as_slice()
}

/// The attachments and the single subpass of a render pass.
#[derive(Debug)]
pub struct RenderPassLayout {
    pub attachments: AttachmentDescriptions,
    pub color_attachments: AttachmentReferences,
    pub resolve_attachments: AttachmentReferences,
    pub depth_stencil_attachment: Option<AttachmentReference>,
}

impl RenderPassLayout {
    /// Every attachment: color, then depth stencil, then resolve.
    pub fn attachment_descriptions(&self) -> (r: &[AttachmentDescription])
        ensures
            r@ == held_descriptions(self.attachments),
    {
        descriptions_slice(&self.attachments)
    }

    /// The subpass's color attachment references.
    pub fn color_references(&self) -> (r: &[AttachmentReference])
        ensures
            r@ == held_references(self.color_attachments),
    {
        references_slice(&self.color_attachments)
    }

    /// The subpass's resolve attachment references, one per color attachment.
    pub fn resolve_references(&self) -> (r: &[AttachmentReference])
        ensures
            r@ == held_references(self.resolve_attachments),
    {
        references_slice(&self.resolve_attachments)
    }
}

pub open spec fn color_reference(attachment: u32) -> AttachmentReference {
    AttachmentReference { attachment, layout: vk::IMAGE_LAYOUT_COLOR_ATTACHMENT_OPTIMAL }
}

pub fn color_attachment_reference(attachment: u32) -> (r: AttachmentReference)
    ensures
        r == color_reference(attachment),
{
    AttachmentReference { attachment, layout: vk::IMAGE_LAYOUT_COLOR_ATTACHMENT_OPTIMAL }
}

pub open spec fn color_description(color_info: ColorInfo, samples: u32) -> AttachmentDescription {
    AttachmentDescription {
        format: spec_image_format(color_info.format),
        samples,
        load_op: spec_attachment_load_op(color_info.load_op),
        store_op: vk::ATTACHMENT_STORE_OP_STORE,
        stencil_load_op: vk::ATTACHMENT_LOAD_OP_LOAD,
        stencil_store_op: vk::ATTACHMENT_STORE_OP_STORE,
        initial_layout: vk::IMAGE_LAYOUT_COLOR_ATTACHMENT_OPTIMAL,
        final_layout: vk::IMAGE_LAYOUT_COLOR_ATTACHMENT_OPTIMAL,
    }
}

pub fn color_attachment_description(color_info: ColorInfo, sample_count: u32) -> (r: AttachmentDescription)
    ensures
        r == color_description(color_info, sample_count),
{
    AttachmentDescription {
        format: image_format(color_info.format),
        samples: sample_count,
        load_op: attachment_load_op(color_info.load_op),
        store_op: vk::ATTACHMENT_STORE_OP_STORE,
        stencil_load_op: vk::ATTACHMENT_LOAD_OP_LOAD,
        stencil_store_op: vk::ATTACHMENT_STORE_OP_STORE,
        initial_layout: vk::IMAGE_LAYOUT_COLOR_ATTACHMENT_OPTIMAL,
        final_layout: vk::IMAGE_LAYOUT_COLOR_ATTACHMENT_OPTIMAL,
    }
}

pub open spec fn resolve_reference(attachment: u32, color_info: ColorInfo) -> AttachmentReference {
    if color_info.has_resolve_target {
        AttachmentReference { attachment, layout: vk::IMAGE_LAYOUT_COLOR_ATTACHMENT_OPTIMAL }
    } else {
        AttachmentReference { attachment: vk::ATTACHMENT_UNUSED, layout: vk::IMAGE_LAYOUT_UNDEFINED }
    }
}

pub fn resolve_attachment_reference(attachment: u32, color_info: ColorInfo) -> (r: AttachmentReference)
    ensures
        r == resolve_reference(attachment, color_info),
{
    if color_info.has_resolve_target {
        AttachmentReference { attachment, layout: vk::IMAGE_LAYOUT_COLOR_ATTACHMENT_OPTIMAL }
    } else {
        AttachmentReference { attachment: vk::ATTACHMENT_UNUSED, layout: vk::IMAGE_LAYOUT_UNDEFINED }
    }
}

pub open spec fn resolve_description(color_info: ColorInfo) -> AttachmentDescription {
    AttachmentDescription {
        format: spec_image_format(color_info.format),
        samples: 1,
        load_op: vk::ATTACHMENT_LOAD_OP_DONT_CARE,
        store_op: vk::ATTACHMENT_STORE_OP_STORE,
        stencil_load_op: vk::ATTACHMENT_LOAD_OP_LOAD,
        stencil_store_op: vk::ATTACHMENT_STORE_OP_STORE,
        initial_layout: vk::IMAGE_LAYOUT_COLOR_ATTACHMENT_OPTIMAL,
        final_layout: vk::IMAGE_LAYOUT_COLOR_ATTACHMENT_OPTIMAL,
    }
}

pub fn resolve_attachment_description(color_info: ColorInfo) -> (r: AttachmentDescription)
    ensures
        r == resolve_description(color_info),
{
    AttachmentDescription {
        format: image_format(color_info.format),
        samples: 1,
        load_op: vk::ATTACHMENT_LOAD_OP_DONT_CARE,
        store_op: vk::ATTACHMENT_STORE_OP_STORE,
        stencil_load_op: vk::ATTACHMENT_LOAD_OP_LOAD,
        stencil_store_op: vk::ATTACHMENT_STORE_OP_STORE,
        initial_layout: vk::IMAGE_LAYOUT_COLOR_ATTACHMENT_OPTIMAL,
        final_layout: vk::IMAGE_LAYOUT_COLOR_ATTACHMENT_OPTIMAL,
    }
}

pub open spec fn depth_stencil_reference(attachment: u32) -> AttachmentReference {
    AttachmentReference { attachment, layout: vk::IMAGE_LAYOUT_DEPTH_STENCIL_ATTACHMENT_OPTIMAL }
}

pub fn depth_stencil_attachment_reference(attachment: u32) -> (r: AttachmentReference)
    ensures
        r == depth_stencil_reference(attachment),
{
    AttachmentReference { attachment, layout: vk::IMAGE_LAYOUT_DEPTH_STENCIL_ATTACHMENT_OPTIMAL }
}

pub open spec fn depth_stencil_description(info: DepthStencilInfo, samples: u32) -> AttachmentDescription {
    AttachmentDescription {
        format: spec_image_format(info.format),
        samples,
        load_op: spec_attachment_load_op(info.depth_load_op),
        store_op: vk::ATTACHMENT_STORE_OP_STORE,
        stencil_load_op: spec_attachment_load_op(info.stencil_load_op),
        stencil_store_op: vk::ATTACHMENT_STORE_OP_STORE,
        initial_layout: vk::IMAGE_LAYOUT_DEPTH_STENCIL_ATTACHMENT_OPTIMAL,
        final_layout: vk::IMAGE_LAYOUT_DEPTH_STENCIL_ATTACHMENT_OPTIMAL,
    }
}

pub fn depth_stencil_attachment_description(info: &DepthStencilInfo, sample_count: u32) -> (r: AttachmentDescription)
    ensures
        r == depth_stencil_description(*info, sample_count),
{
    AttachmentDescription {
        format: image_format(info.format),
        samples: sample_count,
        load_op: attachment_load_op(info.depth_load_op),
        store_op: vk::ATTACHMENT_STORE_OP_STORE,
        stencil_load_op: attachment_load_op(info.stencil_load_op),
        stencil_store_op: vk::ATTACHMENT_STORE_OP_STORE,
        initial_layout: vk::IMAGE_LAYOUT_DEPTH_STENCIL_ATTACHMENT_OPTIMAL,
        final_layout: vk::IMAGE_LAYOUT_DEPTH_STENCIL_ATTACHMENT_OPTIMAL,
    }
}

/// Number of color attachments plus one for a depth stencil attachment.
pub open spec fn main_attachment_count(query: RenderPassCacheQuery) -> nat {
    query.colors().len() + if query.depth_stencil.is_some() { 1nat } else { 0nat }
}

/// Lays out the render pass for a query: color attachments first, then the
/// depth stencil attachment, then one resolve attachment per color target
/// that has a resolve target. Color attachment `i` resolves into attachment
/// `i` plus the number of color and depth stencil attachments. An invalid
/// sample count fails with a validation error.
pub fn render_pass_layout(query: &RenderPassCacheQuery) -> (r: Result<RenderPassLayout, Error>)
    requires
        query.colors().len() <= 0x7fff_ffff,
    ensures
        !valid_sample_count(query.sample_count) ==> (r matches Err(e) && e.kind
            == crate::error::ErrorKind::Code(vk::RESULT_ERROR_VALIDATION_FAILED_EXT)),
        valid_sample_count(query.sample_count) ==> (r matches Ok(l) && {
            let c = query.colors().len();
            let total = main_attachment_count(*query);
            &&& held_references(l.color_attachments) == Seq::new(c, |i: int| color_reference(i as u32))
            &&& l.depth_stencil_attachment == if query.depth_stencil.is_some() {
                Some(depth_stencil_reference(c as u32))
            } else {
                None
            }
            &&& held_references(l.resolve_attachments) == Seq::new(
                c,
                |i: int| resolve_reference((i + total) as u32, query.colors()[i]),
            )
            &&& held_descriptions(l.attachments) == query.colors().map_values(
                |ci: ColorInfo| color_description(ci, query.sample_count),
            ) + (match query.depth_stencil {
                Some(ds) => seq![depth_stencil_description(ds, query.sample_count)],
                None => Seq::<AttachmentDescription>::empty(),
            }) + query.colors().filter(|ci: ColorInfo| ci.has_resolve_target).map_values(
                |ci: ColorInfo| resolve_description(ci),
            )
        }),
{
    let samples = match sample_count(query.sample_count) {
        Ok(s) => s,
        Err(e) => {
            return Err(e);
        },
    };
    let query_colors = color_infos_slice(&query.color);
    let c = query_colors.len();
    let ghost colors = query.colors();
    let mut color_attachments = new_references();
    let mut attachments = new_descriptions();
    let mut i: usize = 0;
    while i < c
        invariant
            i <= c,
            c == colors.len(),
            colors == query.colors(),
            query_colors@ == colors,
            c <= 0x7fff_ffff,
            samples == query.sample_count,
            held_references(color_attachments) == Seq::new(i as nat, |k: int| color_reference(k as u32)),
            held_descriptions(attachments) == colors.take(i as int).map_values(|ci: ColorInfo| color_description(ci, samples)),
        decreases c - i,
    {
        push_reference(&mut color_attachments, color_attachment_reference(i as u32));
        push_description(&mut attachments, color_attachment_description(query_colors[i], samples));
        proof {
            assert(held_references(color_attachments) =~= Seq::new(i as nat + 1, |k: int| color_reference(k as u32)));
            assert(colors.take(i as int + 1) =~= colors.take(i as int).push(colors[i as int]));
            assert(held_descriptions(attachments) =~= colors.take(i as int + 1).map_values(|ci: ColorInfo| color_description(ci, samples)));
        }
        i = i + 1;
    }
    assert(colors.take(c as int) =~= colors);
    let ghost after_colors = held_descriptions(attachments);
    let mut total = c as u32;
    let depth_stencil_attachment = match query.depth_stencil {
        Some(ds) => {
            push_description(&mut attachments, depth_stencil_attachment_description(&ds, samples));
            let r = Some(depth_stencil_attachment_reference(total));
            total = total + 1;
            r
        },
        None => None,
    };
    let ghost after_ds = held_descriptions(attachments);
    assert(total == main_attachment_count(*query));
    let mut resolve_attachments = new_references();
    let ghost p = |ci: ColorInfo| ci.has_resolve_target;
    let ghost f = |ci: ColorInfo| resolve_description(ci);
    let mut j: usize = 0;
    while j < c
        invariant
            j <= c,
            c == colors.len(),
            colors == query.colors(),
            query_colors@ == colors,
            c <= 0x7fff_ffff,
            total == c + if query.depth_stencil.is_some() { 1nat } else { 0nat },
            p == (|ci: ColorInfo| ci.has_resolve_target),
            f == (|ci: ColorInfo| resolve_description(ci)),
            held_references(resolve_attachments) == Seq::new(j as nat, |k: int| resolve_reference((k + total) as u32, colors[k])),
            held_descriptions(attachments) == after_ds + colors.take(j as int).filter(p).map_values(f),
        decreases c - j,
    {
        let color_info = query_colors[j];
        push_reference(&mut resolve_attachments, resolve_attachment_reference(j as u32 + total, color_info));
        proof {
            reveal_with_fuel(Seq::filter, 1);
            assert(colors.take(j as int + 1).drop_last() =~= colors.take(j as int));
            assert(colors.take(j as int + 1).last() == color_info);
            assert(held_references(resolve_attachments) =~= Seq::new(j as nat + 1, |k: int| resolve_reference((k + total) as u32, colors[k])));
        }
        if color_info.has_resolve_target {
            push_description(&mut attachments, resolve_attachment_description(color_info));
            proof {
                assert(colors.take(j as int + 1).filter(p) == colors.take(j as int).filter(p).push(color_info));
                assert(colors.take(j as int + 1).filter(p).map_values(f) =~= colors.take(j as int).filter(p).map_values(f).push(f(color_info)));
                assert(held_descriptions(attachments) =~= after_ds + colors.take(j as int + 1).filter(p).map_values(f));
            }
        }
        j = j + 1;
    }
    assert(colors.take(c as int) =~= colors);
    proof {
        assert(after_ds =~= colors.map_values(|ci: ColorInfo| color_description(ci, query.sample_count)) + (match query.depth_stencil {
                Some(ds) => seq![depth_stencil_description(ds, query.sample_count)],
                None => Seq::<AttachmentDescription>::empty(),
            }));
    }
    Ok(RenderPassLayout { attachments, color_attachments, resolve_attachments, depth_stencil_attachment })
}

/// Render passes created so far, by the query they answer.
#[derive(Clone, Debug)]
pub struct RenderPassCache {
    entries: Vec<(RenderPassCacheQuery, u64)>,
}

impl View for RenderPassCache {
    type V = Seq<(RenderPassCacheQuery, u64)>;

    closed spec fn view(&self) -> Seq<(RenderPassCacheQuery, u64)> {
        self.entries@
    }
}

/// Position of the first entry that answers `query`, at or after `k`.
pub open spec fn cached_index(entries: Seq<(RenderPassCacheQuery, u64)>, query: RenderPassCacheQuery, k: int) -> Option<int>
    decreases entries.len() - k,
{
    if k < 0 || k >= entries.len() {
        None
    } else if entries[k].0.same(&query) {
        Some(k)
    } else {
        cached_index(entries, query, k + 1)
    }
}

impl RenderPassCache {
    pub fn new() -> (r: Self)
        ensures
            r@ == Seq::<(RenderPassCacheQuery, u64)>::empty(),
    {
        RenderPassCache { entries: Vec::new() }
    }

    /// The render pass created for a query equal to `query`, if any.
    pub fn get_render_pass(&self, query: &RenderPassCacheQuery) -> (r: Option<u64>)
        ensures
            match cached_index(self@, *query, 0) {
                Some(k) => r == Some(self@[k].1),
                None => r.is_none(),
            },
    {
        let mut k: usize = 0;
        while k < self.entries.len()
            invariant
                k <= self@.len(),
                cached_index(self@, *query, 0) == cached_index(self@, *query, k as int),
            decreases self@.len() - k,
        {
            if self.entries[k].0.eq(query) {
                return Some(self.entries[k].1);
            }
            k = k + 1;
        }
        None
    }

    /// Remembers the render pass created for `query`.
    pub fn insert(&mut self, query: RenderPassCacheQuery, handle: u64)
        ensures
            final(self)@ == old(self)@.push((query, handle)),
    {
        self.entries.push((query, handle));
    }

    /// Forgets every render pass and returns their handles, for destruction.
    pub fn drain(&mut self) -> (r: Vec<u64>)
        ensures
            final(self)@ == Seq::<(RenderPassCacheQuery, u64)>::empty(),
            r@ == old(self)@.map_values(|e: (RenderPassCacheQuery, u64)| e.1),
    {
        let mut handles: Vec<u64> = Vec::new();
        let mut i: usize = 0;
        while i < self.entries.len()
            invariant
                i <= self@.len(),
                self@ == old(self)@,
                handles@ == self@.take(i as int).map_values(|e: (RenderPassCacheQuery, u64)| e.1),
            decreases self@.len() - i,
        {
            handles.push(self.entries[i].1);
            proof {
                assert(self@.take(i as int + 1) =~= self@.take(i as int).push(self@[i as int]));
                assert(handles@ =~= self@.take(i as int + 1).map_values(|e: (RenderPassCacheQuery, u64)| e.1));
            }
            i = i + 1;
        }
        assert(self@.take(self@.len() as int) =~= self@);
        self.entries = Vec::new();
        handles
    }

    pub fn is_empty(&self) -> (r: bool)
        ensures
            r == (self@.len() == 0),
    {
        self.entries.len() == 0
    }
}

/// A render pass cached for a query is found again for any query that asks
/// for the same render pass: after inserting `(query, handle)`, looking up an
/// equal query finds an entry, and the handle found is `handle` unless an
/// earlier entry already answered it.
pub proof fn lemma_cached_after_insert(
    entries: Seq<(RenderPassCacheQuery, u64)>,
    query: RenderPassCacheQuery,
    handle: u64,
    lookup: RenderPassCacheQuery,
)
    requires
        lookup.same(&query),
    ensures
        cached_index(entries.push((query, handle)), lookup, 0) is Some,
        cached_index(entries, lookup, 0) is None ==> cached_index(entries.push((query, handle)), lookup, 0)
            == Some(entries.len() as int),
{
    lemma_cached_index_push(entries, query, handle, lookup, 0);
}

proof fn lemma_cached_index_push(
    entries: Seq<(RenderPassCacheQuery, u64)>,
    query: RenderPassCacheQuery,
    handle: u64,
    lookup: RenderPassCacheQuery,
    k: int,
)
    requires
        lookup.same(&query),
        0 <= k <= entries.len(),
    ensures
        cached_index(entries.push((query, handle)), lookup, k) is Some,
        cached_index(entries, lookup, k) is None ==> cached_index(entries.push((query, handle)), lookup, k)
            == Some(entries.len() as int),
        cached_index(entries, lookup, k) is Some ==> cached_index(entries.push((query, handle)), lookup, k)
            == cached_index(entries, lookup, k),
    decreases entries.len() - k,
{
    let p = entries.push((query, handle));
    if k == entries.len() {
        assert(p[k].0 == query);
        assert(query.colors() == lookup.colors());
        assert(p[k].0.same(&lookup));
    } else {
        assert(p[k] == entries[k]);
        lemma_cached_index_push(entries, query, handle, lookup, k + 1);
    }
}

} // verus!
