use vstd::prelude::*;

use crate::flags::{BufferUsageFlags, TextureUsageFlags, BUFFER_USAGE_STORAGE, TEXTURE_USAGE_STORAGE};
use crate::resources::{Buffer, Texture};

verus! {

/// No two entries share a handle.
pub open spec fn handles_unique(hs: Seq<u64>) -> bool {
    forall|i: int, j: int| 0 <= i < hs.len() && 0 <= j < hs.len() && i != j ==> hs[i] != hs[j]
}

/// The position of `h` in `hs`, or -1 when it does not occur.
pub open spec fn handle_index(hs: Seq<u64>, h: u64) -> int {
    if exists|i: int| 0 <= i < hs.len() && hs[i] == h {
        choose|i: int| 0 <= i < hs.len() && hs[i] == h
    } else {
        -1
    }
}

proof fn lemma_handle_index(hs: Seq<u64>, h: u64, i: int)
    requires
        handles_unique(hs),
        0 <= i < hs.len(),
        hs[i] == h,
    ensures
        handle_index(hs, h) == i,
{
}

pub open spec fn buffer_handles(s: Seq<(Buffer, BufferUsageFlags)>) -> Seq<u64> {
    s.map_values(|e: (Buffer, BufferUsageFlags)| e.0.handle)
}

pub open spec fn texture_handles(s: Seq<(Texture, TextureUsageFlags)>) -> Seq<u64> {
    s.map_values(|e: (Texture, TextureUsageFlags)| e.0.handle)
}

/// Records that a pass uses `buffer` as `usage`: a buffer seen before gains
/// the usage, a new one is added with it.
pub open spec fn spec_add_buffer_usage(
    s: Seq<(Buffer, BufferUsageFlags)>,
    buffer: Buffer,
    usage: BufferUsageFlags,
) -> Seq<(Buffer, BufferUsageFlags)> {
    let i = handle_index(buffer_handles(s), buffer.handle);
    if i >= 0 {
        s.update(i, (s[i].0, BufferUsageFlags { bits: s[i].1.bits | usage.bits }))
    } else {
        s.push((buffer, usage))
    }
}

/// Records that a pass uses `texture` as `usage`.
pub open spec fn spec_add_texture_usage(
    s: Seq<(Texture, TextureUsageFlags)>,
    texture: Texture,
    usage: TextureUsageFlags,
) -> Seq<(Texture, TextureUsageFlags)> {
    let i = handle_index(texture_handles(s), texture.handle);
    if i >= 0 {
        s.update(i, (s[i].0, TextureUsageFlags { bits: s[i].1.bits | usage.bits }))
    } else {
        s.push((texture, usage))
    }
}

/// A buffer asked for as storage again, after it was already recorded with a
/// storage usage.
pub open spec fn buffer_storage_reused(
    s: Seq<(Buffer, BufferUsageFlags)>,
    buffer: Buffer,
    usage: BufferUsageFlags,
) -> bool {
    let i = handle_index(buffer_handles(s), buffer.handle);
    usage.bits == BUFFER_USAGE_STORAGE && i >= 0 && s[i].1.bits & BUFFER_USAGE_STORAGE != 0
}

pub open spec fn texture_storage_reused(
    s: Seq<(Texture, TextureUsageFlags)>,
    texture: Texture,
    usage: TextureUsageFlags,
) -> bool {
    let i = handle_index(texture_handles(s), texture.handle);
    usage.bits == TEXTURE_USAGE_STORAGE && i >= 0 && s[i].1.bits & TEXTURE_USAGE_STORAGE != 0
}

/// The resources one pass uses, each once, with the union of its usages.
#[derive(Clone, Debug)]
pub struct PassResourceUsage {
    pub buffers: Vec<(Buffer, BufferUsageFlags)>,
    pub textures: Vec<(Texture, TextureUsageFlags)>,
}

impl PassResourceUsage {
    /// Nothing used.
    pub fn new() -> (r: Self)
        ensures
            r.buffers@ == Seq::<(Buffer, BufferUsageFlags)>::empty(),
            r.textures@ == Seq::<(Texture, TextureUsageFlags)>::empty(),
    {
        PassResourceUsage { buffers: Vec::new(), textures: Vec::new() }
    }
}

/// The kind of a pass.
#[derive(Clone, Copy, Debug, PartialEq, Eq, Structural, Hash)]
pub enum PassType {
    Render,
    Compute,
}

/// What the tracker has recorded so far: each resource once with its usage,
/// and, in order, every use it was told of since it was last emptied.
#[verifier::ext_equal]
pub struct TrackerView {
    pub buffers: Seq<(Buffer, BufferUsageFlags)>,
    pub textures: Seq<(Texture, TextureUsageFlags)>,
    pub storage_used_multiple_times: bool,
    pub buffer_uses: Seq<(Buffer, BufferUsageFlags)>,
    pub texture_uses: Seq<(Texture, TextureUsageFlags)>,
}

/// The tracker after recording that the pass uses `buffer` as `usage`.
pub open spec fn spec_buffer_used_as(t: TrackerView, buffer: Buffer, usage: BufferUsageFlags) -> TrackerView {
    TrackerView {
        buffers: spec_add_buffer_usage(t.buffers, buffer, usage),
        textures: t.textures,
        storage_used_multiple_times: t.storage_used_multiple_times || buffer_storage_reused(
            t.buffers,
            buffer,
            usage,
        ),
        buffer_uses: t.buffer_uses.push((buffer, usage)),
        texture_uses: t.texture_uses,
    }
}

/// The tracker after recording that the pass uses `texture` as `usage`.
pub open spec fn spec_texture_used_as(t: TrackerView, texture: Texture, usage: TextureUsageFlags) -> TrackerView {
    TrackerView {
        buffers: t.buffers,
        textures: spec_add_texture_usage(t.textures, texture, usage),
        storage_used_multiple_times: t.storage_used_multiple_times || texture_storage_reused(
            t.textures,
            texture,
            usage,
        ),
        buffer_uses: t.buffer_uses,
        texture_uses: t.texture_uses.push((texture, usage)),
    }
}

/// Every resource is recorded once.
pub open spec fn tracker_wf(t: TrackerView) -> bool {
    handles_unique(buffer_handles(t.buffers)) && handles_unique(texture_handles(t.textures))
}

/// The recorded resources are what the recorded uses give, in turn.
pub open spec fn tracker_records_uses(t: TrackerView) -> bool {
    t.buffers == record_buffer_uses(t.buffer_uses) && t.textures == record_texture_uses(t.texture_uses)
}

/// Collects the usages of the resources one pass touches.
#[derive(Clone)]
pub struct PassResourceUsageTracker {
    buffer_usages: Vec<(Buffer, BufferUsageFlags)>,
    texture_usages: Vec<(Texture, TextureUsageFlags)>,
    storage_used_multiple_times: bool,
    buffer_uses: Ghost<Seq<(Buffer, BufferUsageFlags)>>,
    texture_uses: Ghost<Seq<(Texture, TextureUsageFlags)>>,
}

impl View for PassResourceUsageTracker {
    type V = TrackerView;

    closed spec fn view(&self) -> TrackerView {
        TrackerView {
            buffers: self.buffer_usages@,
            textures: self.texture_usages@,
            storage_used_multiple_times: self.storage_used_multiple_times,
            buffer_uses: self.buffer_uses@,
            texture_uses: self.texture_uses@,
        }
    }
}

fn find_buffer(s: &Vec<(Buffer, BufferUsageFlags)>, handle: u64) -> (r: Option<usize>)
    requires
        handles_unique(buffer_handles(s@)),
    ensures
        match r {
            Some(i) => i < s@.len() && i == handle_index(buffer_handles(s@), handle),
            None => handle_index(buffer_handles(s@), handle) == -1,
        },
{
    let mut i: usize = 0;
    while i < s.len()
        invariant
            i <= s@.len(),
            handles_unique(buffer_handles(s@)),
            forall|j: int| 0 <= j < i ==> s@[j].0.handle != handle,
        decreases s@.len() - i,
    {
        if s[i].0.handle == handle {
            proof {
                lemma_handle_index(buffer_handles(s@), handle, i as int);
            }
            return Some(i);
        }
        i = i + 1;
    }
    proof {
        assert forall|j: int| 0 <= j < buffer_handles(s@).len() implies buffer_handles(s@)[j] != handle by {
            assert(buffer_handles(s@)[j] == s@[j].0.handle);
        }
    }
    None
}

fn find_texture(s: &Vec<(Texture, TextureUsageFlags)>, handle: u64) -> (r: Option<usize>)
    requires
        handles_unique(texture_handles(s@)),
    ensures
        match r {
            Some(i) => i < s@.len() && i == handle_index(texture_handles(s@), handle),
            None => handle_index(texture_handles(s@), handle) == -1,
        },
{
    let mut i: usize = 0;
    while i < s.len()
        invariant
            i <= s@.len(),
            handles_unique(texture_handles(s@)),
            forall|j: int| 0 <= j < i ==> s@[j].0.handle != handle,
        decreases s@.len() - i,
    {
        if s[i].0.handle == handle {
            proof {
                lemma_handle_index(texture_handles(s@), handle, i as int);
            }
            return Some(i);
        }
        i = i + 1;
    }
    proof {
        assert forall|j: int| 0 <= j < texture_handles(s@).len() implies texture_handles(s@)[j] != handle by {
            assert(texture_handles(s@)[j] == s@[j].0.handle);
        }
    }
    None
}

proof fn lemma_add_buffer_keeps_unique(s: Seq<(Buffer, BufferUsageFlags)>, buffer: Buffer, usage: BufferUsageFlags)
    requires
        handles_unique(buffer_handles(s)),
    ensures
        handles_unique(buffer_handles(spec_add_buffer_usage(s, buffer, usage))),
{
    let i = handle_index(buffer_handles(s), buffer.handle);
    let t = spec_add_buffer_usage(s, buffer, usage);
    if i >= 0 {
        assert(buffer_handles(t) =~= buffer_handles(s));
    } else {
        assert forall|a: int, b: int|
            0 <= a < buffer_handles(t).len() && 0 <= b < buffer_handles(t).len() && a != b implies buffer_handles(t)[a]
            != buffer_handles(t)[b] by {
            if a < s.len() && b < s.len() {
                assert(buffer_handles(t)[a] == buffer_handles(s)[a]);
                assert(buffer_handles(t)[b] == buffer_handles(s)[b]);
            } else if a < s.len() {
                assert(buffer_handles(t)[a] == buffer_handles(s)[a]);
            } else {
                assert(buffer_handles(t)[b] == buffer_handles(s)[b]);
            }
        }
    }
}

proof fn lemma_add_texture_keeps_unique(s: Seq<(Texture, TextureUsageFlags)>, texture: Texture, usage: TextureUsageFlags)
    requires
        handles_unique(texture_handles(s)),
    ensures
        handles_unique(texture_handles(spec_add_texture_usage(s, texture, usage))),
{
    let i = handle_index(texture_handles(s), texture.handle);
    let t = spec_add_texture_usage(s, texture, usage);
    if i >= 0 {
        assert(texture_handles(t) =~= texture_handles(s));
    } else {
        assert forall|a: int, b: int|
            0 <= a < texture_handles(t).len() && 0 <= b < texture_handles(t).len() && a != b implies texture_handles(t)[a]
            != texture_handles(t)[b] by {
            if a < s.len() && b < s.len() {
                assert(texture_handles(t)[a] == texture_handles(s)[a]);
                assert(texture_handles(t)[b] == texture_handles(s)[b]);
            } else if a < s.len() {
                assert(texture_handles(t)[a] == texture_handles(s)[a]);
            } else {
                assert(texture_handles(t)[b] == texture_handles(s)[b]);
            }
        }
    }
}

impl PassResourceUsageTracker {
    /// Every resource is recorded once, with what the uses so far give it.
    pub open spec fn wf(&self) -> bool {
        tracker_wf(self@) && tracker_records_uses(self@)
    }

    /// A tracker that has recorded nothing.
    pub fn new() -> (r: Self)
        ensures
            r.wf(),
            r@.buffers == Seq::<(Buffer, BufferUsageFlags)>::empty(),
            r@.textures == Seq::<(Texture, TextureUsageFlags)>::empty(),
            !r@.storage_used_multiple_times,
            r@.buffer_uses == Seq::<(Buffer, BufferUsageFlags)>::empty(),
            r@.texture_uses == Seq::<(Texture, TextureUsageFlags)>::empty(),
    {
        PassResourceUsageTracker {
            buffer_usages: Vec::new(),
            texture_usages: Vec::new(),
            storage_used_multiple_times: false,
            buffer_uses: Ghost(Seq::empty()),
            texture_uses: Ghost(Seq::empty()),
        }
    }

    /// Whether a resource was bound as storage more than once.
    pub fn storage_used_multiple_times(&self) -> (r: bool)
        ensures
            r == self@.storage_used_multiple_times,
    {
        self.storage_used_multiple_times
    }

    /// Records that the pass uses `buffer` as `usage`.
    pub fn buffer_used_as(&mut self, buffer: Buffer, usage: BufferUsageFlags)
        requires
            old(self).wf(),
        ensures
            final(self).wf(),
            final(self)@ == spec_buffer_used_as(old(self)@, buffer, usage),
    {
        proof {
            lemma_add_buffer_keeps_unique(self.buffer_usages@, buffer, usage);
            let uses = self.buffer_uses@.push((buffer, usage));
            assert(uses.drop_last() =~= self.buffer_uses@);
            self.buffer_uses@ = uses;
        }
        match find_buffer(&self.buffer_usages, buffer.handle) {
            Some(i) => {
                let (b, existing) = self.buffer_usages[i];
                if usage.bits == BUFFER_USAGE_STORAGE && existing.bits & BUFFER_USAGE_STORAGE != 0 {
                    self.storage_used_multiple_times = true;
                }
                self.buffer_usages.set(i, (b, BufferUsageFlags { bits: existing.bits | usage.bits }));
            },
            None => {
                self.buffer_usages.push((buffer, usage));
            },
        }
    }

    /// Records that the pass uses `texture` as `usage`.
    pub fn texture_used_as(&mut self, texture: Texture, usage: TextureUsageFlags)
        requires
            old(self).wf(),
        ensures
            final(self).wf(),
            final(self)@ == spec_texture_used_as(old(self)@, texture, usage),
    {
        proof {
            lemma_add_texture_keeps_unique(self.texture_usages@, texture, usage);
            let uses = self.texture_uses@.push((texture, usage));
            assert(uses.drop_last() =~= self.texture_uses@);
            self.texture_uses@ = uses;
        }
        match find_texture(&self.texture_usages, texture.handle) {
            Some(i) => {
                let (t, existing) = self.texture_usages[i];
                if usage.bits == TEXTURE_USAGE_STORAGE && existing.bits & TEXTURE_USAGE_STORAGE != 0 {
                    self.storage_used_multiple_times = true;
                }
                self.texture_usages.set(i, (t, TextureUsageFlags { bits: existing.bits | usage.bits }));
            },
            None => {
                self.texture_usages.push((texture, usage));
            },
        }
    }

    /// Checks the usages of a pass; every combination is accepted.
    pub fn validate_usages(_pass_type: PassType) -> (r: Result<(), ()>)
        ensures
            r is Ok,
    {
        Ok(())
    }

    /// Hands out what the pass used and leaves the tracker empty.
    pub fn acquire_resource_usage(&mut self) -> (r: PassResourceUsage)
        requires
            old(self).wf(),
        ensures
            final(self).wf(),
            r.buffers@ == old(self)@.buffers,
            r.textures@ == old(self)@.textures,
            final(self)@.buffers == Seq::<(Buffer, BufferUsageFlags)>::empty(),
            final(self)@.textures == Seq::<(Texture, TextureUsageFlags)>::empty(),
            final(self)@.storage_used_multiple_times == old(self)@.storage_used_multiple_times,
            final(self)@.buffer_uses == Seq::<(Buffer, BufferUsageFlags)>::empty(),
            final(self)@.texture_uses == Seq::<(Texture, TextureUsageFlags)>::empty(),
    {
        let mut buffers: Vec<(Buffer, BufferUsageFlags)> = Vec::new();
        let mut textures: Vec<(Texture, TextureUsageFlags)> = Vec::new();
        std::mem::swap(&mut buffers, &mut self.buffer_usages);
        std::mem::swap(&mut textures, &mut self.texture_usages);
        self.buffer_uses = Ghost(Seq::empty());
        self.texture_uses = Ghost(Seq::empty());
        PassResourceUsage { buffers, textures }
    }
}

/// The resources a command buffer uses: per pass, and outside of passes
/// (copies and blits), each of the latter once.
#[derive(Clone, Debug)]
pub struct CommandBufferResourceUsage {
    pub per_pass: Vec<PassResourceUsage>,
    pub top_level_buffers: Vec<Buffer>,
    pub top_level_textures: Vec<Texture>,
}

/// Adds `buffer` unless a buffer with its handle is there already.
pub open spec fn spec_insert_buffer(s: Seq<Buffer>, buffer: Buffer) -> Seq<Buffer> {
    if exists|i: int| 0 <= i < s.len() && s[i].handle == buffer.handle {
        s
    } else {
        s.push(buffer)
    }
}

/// Adds `texture` unless a texture with its handle is there already.
pub open spec fn spec_insert_texture(s: Seq<Texture>, texture: Texture) -> Seq<Texture> {
    if exists|i: int| 0 <= i < s.len() && s[i].handle == texture.handle {
        s
    } else {
        s.push(texture)
    }
}

impl CommandBufferResourceUsage {
    /// Each top-level resource is there once.
    pub open spec fn wf(&self) -> bool {
        handles_unique(self.top_level_buffers@.map_values(|b: Buffer| b.handle))
            && handles_unique(self.top_level_textures@.map_values(|t: Texture| t.handle))
    }

    /// Nothing used yet.
    pub fn new() -> (r: Self)
        ensures
            r.wf(),
            r.per_pass@ == Seq::<PassResourceUsage>::empty(),
            r.top_level_buffers@ == Seq::<Buffer>::empty(),
            r.top_level_textures@ == Seq::<Texture>::empty(),
    {
        CommandBufferResourceUsage {
            per_pass: Vec::new(),
            top_level_buffers: Vec::new(),
            top_level_textures: Vec::new(),
        }
    }

    /// Records a buffer used outside of any pass.
    pub fn insert_top_level_buffer(&mut self, buffer: Buffer)
        requires
            old(self).wf(),
        ensures
            final(self).wf(),
            final(self).top_level_buffers@ == spec_insert_buffer(old(self).top_level_buffers@, buffer),
            final(self).top_level_textures@ == old(self).top_level_textures@,
            final(self).per_pass@ == old(self).per_pass@,
    {
        let mut i: usize = 0;
        while i < self.top_level_buffers.len()
            invariant
                i <= self.top_level_buffers@.len(),
                self.wf(),
                *self == *old(self),
                forall|j: int| 0 <= j < i ==> self.top_level_buffers@[j].handle != buffer.handle,
            decreases self.top_level_buffers@.len() - i,
        {
            if self.top_level_buffers[i].handle == buffer.handle {
                return;
            }
            i = i + 1;
        }
        let ghost old_hs = self.top_level_buffers@.map_values(|b: Buffer| b.handle);
        self.top_level_buffers.push(buffer);
        proof {
            let hs = self.top_level_buffers@.map_values(|b: Buffer| b.handle);
            assert(hs =~= old_hs.push(buffer.handle));
        }
    }

    /// Records a texture used outside of any pass.
    pub fn insert_top_level_texture(&mut self, texture: Texture)
        requires
            old(self).wf(),
        ensures
            final(self).wf(),
            final(self).top_level_textures@ == spec_insert_texture(old(self).top_level_textures@, texture),
            final(self).top_level_buffers@ == old(self).top_level_buffers@,
            final(self).per_pass@ == old(self).per_pass@,
    {
        let mut i: usize = 0;
        while i < self.top_level_textures.len()
            invariant
                i <= self.top_level_textures@.len(),
                self.wf(),
                *self == *old(self),
                forall|j: int| 0 <= j < i ==> self.top_level_textures@[j].handle != texture.handle,
            decreases self.top_level_textures@.len() - i,
        {
            if self.top_level_textures[i].handle == texture.handle {
                return;
            }
            i = i + 1;
        }
        let ghost old_hs = self.top_level_textures@.map_values(|t: Texture| t.handle);
        self.top_level_textures.push(texture);
        proof {
            let hs = self.top_level_textures@.map_values(|t: Texture| t.handle);
            assert(hs =~= old_hs.push(texture.handle));
        }
    }

    /// Appends what one pass used.
    pub fn push_pass(&mut self, usage: PassResourceUsage)
        requires
            old(self).wf(),
        ensures
            final(self).wf(),
            final(self).per_pass@ == old(self).per_pass@.push(usage),
            final(self).top_level_buffers@ == old(self).top_level_buffers@,
            final(self).top_level_textures@ == old(self).top_level_textures@,
    {
        self.per_pass.push(usage);
    }
}

/// Recording a usage never loses one: after a pass uses `buffer` as `usage`,
/// the tracker holds the buffer exactly once, with every bit of `usage` and
/// every bit it had before, and every other buffer as it was.
pub proof fn lemma_buffer_usage_accumulates(t: TrackerView, buffer: Buffer, usage: BufferUsageFlags)
    requires
        tracker_wf(t),
    ensures
        ({
            let n = spec_buffer_used_as(t, buffer, usage);
            let i = handle_index(buffer_handles(n.buffers), buffer.handle);
            &&& tracker_wf(n)
            &&& 0 <= i < n.buffers.len()
            &&& n.buffers[i].1.bits & usage.bits == usage.bits
            &&& (handle_index(buffer_handles(t.buffers), buffer.handle) >= 0 ==> n.buffers[i].1.bits == t.buffers[handle_index(
                buffer_handles(t.buffers),
                buffer.handle,
            )].1.bits | usage.bits)
            &&& forall|j: int|
                0 <= j < t.buffers.len() && t.buffers[j].0.handle != buffer.handle ==> #[trigger] n.buffers[j]
                    == t.buffers[j]
        }),
{
    lemma_add_buffer_keeps_unique(t.buffers, buffer, usage);
    let n = spec_buffer_used_as(t, buffer, usage);
    let i0 = handle_index(buffer_handles(t.buffers), buffer.handle);
    if i0 >= 0 {
        assert(buffer_handles(t.buffers)[i0] == buffer.handle);
        assert(buffer_handles(n.buffers)[i0] == buffer.handle);
        lemma_handle_index(buffer_handles(n.buffers), buffer.handle, i0);
        let a = t.buffers[i0].1.bits;
        let b = usage.bits;
        assert((a | b) & b == b) by (bit_vector);
        assert forall|j: int| 0 <= j < t.buffers.len() && t.buffers[j].0.handle != buffer.handle implies #[trigger] n.buffers[j]
            == t.buffers[j] by {
            if j == i0 {
                assert(buffer_handles(t.buffers)[j] == t.buffers[j].0.handle);
            }
        }
    } else {
        let k = t.buffers.len() as int;
        assert(buffer_handles(n.buffers)[k] == buffer.handle);
        lemma_handle_index(buffer_handles(n.buffers), buffer.handle, k);
        let b = usage.bits;
        assert(b & b == b) by (bit_vector);
    }
}

/// The buffers of a pass after it used `uses[0]`, `uses[1]`, ... in turn,
/// starting from none, as `PassResourceUsageTracker::buffer_used_as` records
/// them.
pub open spec fn record_buffer_uses(uses: Seq<(Buffer, BufferUsageFlags)>) -> Seq<(Buffer, BufferUsageFlags)>
    decreases uses.len(),
{
    if uses.len() == 0 {
        Seq::empty()
    } else {
        spec_add_buffer_usage(record_buffer_uses(uses.drop_last()), uses.last().0, uses.last().1)
    }
}

/// Every usage bit that `uses` gives the buffer with handle `h`.
pub open spec fn buffer_usage_union(uses: Seq<(Buffer, BufferUsageFlags)>, h: u64) -> u32
    decreases uses.len(),
{
    if uses.len() == 0 {
        0
    } else {
        buffer_usage_union(uses.drop_last(), h) | if uses.last().0.handle == h {
            uses.last().1.bits
        } else {
            0u32
        }
    }
}

/// Some use in `uses` is of the buffer with handle `h`.
pub open spec fn buffer_uses_handle(uses: Seq<(Buffer, BufferUsageFlags)>, h: u64) -> bool {
    exists|k: int| 0 <= k < uses.len() && #[trigger] uses[k].0.handle == h
}

/// `n` holds the buffers of `uses`, each once, with the union of the usages
/// `uses` gives it, and no other buffer.
pub open spec fn holds_buffer_usage_union(uses: Seq<(Buffer, BufferUsageFlags)>, n: Seq<(Buffer, BufferUsageFlags)>) -> bool {
    &&& handles_unique(buffer_handles(n))
    &&& forall|h: u64| #[trigger] buffer_uses_handle(uses, h) <==> handle_index(buffer_handles(n), h) >= 0
    &&& forall|i: int|
        0 <= i < n.len() ==> (#[trigger] n[i]).1.bits == buffer_usage_union(uses, n[i].0.handle)
}

proof fn lemma_or_zero(x: u32)
    ensures
        x | 0u32 == x,
        0u32 | x == x,
{
    assert(x | 0u32 == x) by (bit_vector);
    assert(0u32 | x == x) by (bit_vector);
}

proof fn lemma_handle_present(hs: Seq<u64>, h: u64)
    ensures
        handle_index(hs, h) >= 0 <==> exists|i: int| 0 <= i < hs.len() && hs[i] == h,
        handle_index(hs, h) >= 0 ==> 0 <= handle_index(hs, h) < hs.len() && hs[handle_index(hs, h)] == h,
{
}

proof fn lemma_union_of_unused_handle(uses: Seq<(Buffer, BufferUsageFlags)>, h: u64)
    requires
        !buffer_uses_handle(uses, h),
    ensures
        buffer_usage_union(uses, h) == 0,
    decreases uses.len(),
{
    if uses.len() > 0 {
        let prev = uses.drop_last();
        if buffer_uses_handle(prev, h) {
            let k = choose|k: int| 0 <= k < prev.len() && #[trigger] prev[k].0.handle == h;
            assert(uses[k] == prev[k]);
        }
        lemma_union_of_unused_handle(prev, h);
        assert(uses.last() == uses[uses.len() - 1]);
        lemma_or_zero(0u32);
    }
}

/// Over a whole pass, every buffer used is held exactly once, with the union
/// of all the usages the pass gave it, and no buffer the pass did not use is
/// held.
pub proof fn lemma_pass_buffer_usage_is_union(uses: Seq<(Buffer, BufferUsageFlags)>)
    ensures
        holds_buffer_usage_union(uses, record_buffer_uses(uses)),
    decreases uses.len(),
{
    if uses.len() == 0 {
        assert forall|h: u64| #[trigger] buffer_uses_handle(uses, h) <==> handle_index(
            buffer_handles(record_buffer_uses(uses)),
            h,
        ) >= 0 by {
            lemma_handle_present(buffer_handles(record_buffer_uses(uses)), h);
        }
    } else {
        let prev = uses.drop_last();
        lemma_pass_buffer_usage_is_union(prev);
        let b = uses.last().0;
        let u = uses.last().1;
        assert(prev.push((b, u)) =~= uses);
        lemma_union_step(prev, b, u);
    }
}

proof fn lemma_uses_handle_push(prev: Seq<(Buffer, BufferUsageFlags)>, b: Buffer, u: BufferUsageFlags, h: u64)
    ensures
        buffer_uses_handle(prev.push((b, u)), h) <==> buffer_uses_handle(prev, h) || b.handle == h,
{
    let uses = prev.push((b, u));
    if buffer_uses_handle(prev, h) {
        let k = choose|k: int| 0 <= k < prev.len() && #[trigger] prev[k].0.handle == h;
        assert(uses[k] == prev[k]);
    }
    if b.handle == h {
        assert(uses[prev.len() as int].0.handle == h);
    }
    if buffer_uses_handle(uses, h) {
        let k = choose|k: int| 0 <= k < uses.len() && #[trigger] uses[k].0.handle == h;
        if k < prev.len() {
            assert(prev[k] == uses[k]);
        }
    }
}

proof fn lemma_union_push(prev: Seq<(Buffer, BufferUsageFlags)>, b: Buffer, u: BufferUsageFlags, h: u64)
    ensures
        buffer_usage_union(prev.push((b, u)), h) == if b.handle == h {
            buffer_usage_union(prev, h) | u.bits
        } else {
            buffer_usage_union(prev, h)
        },
{
    let uses = prev.push((b, u));
    assert(uses.drop_last() =~= prev);
    assert(uses.last() == (b, u));
    lemma_or_zero(buffer_usage_union(prev, h));
}

#[verifier::rlimit(20)]
proof fn lemma_union_step(prev: Seq<(Buffer, BufferUsageFlags)>, b: Buffer, u: BufferUsageFlags)
    requires
        holds_buffer_usage_union(prev, record_buffer_uses(prev)),
    ensures
        holds_buffer_usage_union(prev.push((b, u)), record_buffer_uses(prev.push((b, u)))),
{
    let uses = prev.push((b, u));
    let p = record_buffer_uses(prev);
    assert(uses.drop_last() =~= prev);
    assert(uses.last() == (b, u));
    let n = record_buffer_uses(uses);
    assert(n == spec_add_buffer_usage(p, b, u));
    lemma_add_buffer_keeps_unique(p, b, u);
    let hs = buffer_handles(p);
    let ns = buffer_handles(n);
    let i0 = handle_index(hs, b.handle);
    lemma_handle_present(hs, b.handle);
    if i0 >= 0 {
        assert(n == p.update(i0, (p[i0].0, BufferUsageFlags { bits: p[i0].1.bits | u.bits })));
        assert(ns =~= hs);
        assert forall|h: u64| #[trigger] buffer_uses_handle(uses, h) <==> handle_index(ns, h) >= 0 by {
            lemma_uses_handle_push(prev, b, u, h);
            assert(buffer_uses_handle(prev, h) <==> handle_index(hs, h) >= 0);
            assert(handle_index(ns, h) == handle_index(hs, h));
            assert(buffer_uses_handle(uses, h) <==> (buffer_uses_handle(prev, h) || b.handle == h));
            if h == b.handle {
                assert(handle_index(hs, h) == i0);
                assert(handle_index(ns, h) >= 0);
                assert(buffer_uses_handle(uses, h));
            } else {
                assert(buffer_uses_handle(uses, h) <==> buffer_uses_handle(prev, h));
            }
        }
        assert forall|i: int| 0 <= i < n.len() implies (#[trigger] n[i]).1.bits == buffer_usage_union(
            uses,
            n[i].0.handle,
        ) by {
            lemma_union_push(prev, b, u, n[i].0.handle);
            assert(hs[i] == p[i].0.handle);
            if i != i0 {
                assert(hs[i] != hs[i0]);
            }
        }
    } else {
        assert(n == p.push((b, u)));
        assert(!buffer_uses_handle(prev, b.handle));
        lemma_union_of_unused_handle(prev, b.handle);
        assert(ns =~= hs.push(b.handle));
        assert forall|h: u64| #[trigger] buffer_uses_handle(uses, h) <==> handle_index(ns, h) >= 0 by {
            lemma_uses_handle_push(prev, b, u, h);
            assert(buffer_uses_handle(prev, h) <==> handle_index(hs, h) >= 0);
            lemma_handle_present(hs, h);
            lemma_handle_present(ns, h);
            if h == b.handle {
                assert(ns[hs.len() as int] == h);
            }
            if handle_index(hs, h) >= 0 {
                let j = handle_index(hs, h);
                assert(ns[j] == h);
            }
            if handle_index(ns, h) >= 0 && h != b.handle {
                let j = handle_index(ns, h);
                assert(j < hs.len());
                assert(hs[j] == h);
            }
        }
        assert forall|i: int| 0 <= i < n.len() implies (#[trigger] n[i]).1.bits == buffer_usage_union(
            uses,
            n[i].0.handle,
        ) by {
            lemma_union_push(prev, b, u, n[i].0.handle);
            if i < p.len() {
                assert(n[i] == p[i]);
                assert(hs[i] == p[i].0.handle);
            } else {
                lemma_or_zero(u.bits);
            }
        }
    }
}

/// The textures of a pass after it used `uses[0]`, `uses[1]`, ... in turn,
/// starting from none, as `PassResourceUsageTracker::texture_used_as` records
/// them.
pub open spec fn record_texture_uses(uses: Seq<(Texture, TextureUsageFlags)>) -> Seq<(Texture, TextureUsageFlags)>
    decreases uses.len(),
{
    if uses.len() == 0 {
        Seq::empty()
    } else {
        spec_add_texture_usage(record_texture_uses(uses.drop_last()), uses.last().0, uses.last().1)
    }
}

/// Every usage bit that `uses` gives the texture with handle `h`.
pub open spec fn texture_usage_union(uses: Seq<(Texture, TextureUsageFlags)>, h: u64) -> u32
    decreases uses.len(),
{
    if uses.len() == 0 {
        0
    } else {
        texture_usage_union(uses.drop_last(), h) | if uses.last().0.handle == h {
            uses.last().1.bits
        } else {
            0u32
        }
    }
}

/// Some use in `uses` is of the texture with handle `h`.
pub open spec fn texture_uses_handle(uses: Seq<(Texture, TextureUsageFlags)>, h: u64) -> bool {
    exists|k: int| 0 <= k < uses.len() && #[trigger] uses[k].0.handle == h
}

/// `n` holds the textures of `uses`, each once, with the union of the usages
/// `uses` gives it, and no other texture.
pub open spec fn holds_texture_usage_union(uses: Seq<(Texture, TextureUsageFlags)>, n: Seq<(Texture, TextureUsageFlags)>) -> bool {
    &&& handles_unique(texture_handles(n))
    &&& forall|h: u64| #[trigger] texture_uses_handle(uses, h) <==> handle_index(texture_handles(n), h) >= 0
    &&& forall|i: int|
        0 <= i < n.len() ==> (#[trigger] n[i]).1.bits == texture_usage_union(uses, n[i].0.handle)
}

proof fn lemma_texture_union_of_unused_handle(uses: Seq<(Texture, TextureUsageFlags)>, h: u64)
    requires
        !texture_uses_handle(uses, h),
    ensures
        texture_usage_union(uses, h) == 0,
    decreases uses.len(),
{
    if uses.len() > 0 {
        let prev = uses.drop_last();
        if texture_uses_handle(prev, h) {
            let k = choose|k: int| 0 <= k < prev.len() && #[trigger] prev[k].0.handle == h;
            assert(uses[k] == prev[k]);
        }
        lemma_texture_union_of_unused_handle(prev, h);
        assert(uses.last() == uses[uses.len() - 1]);
        lemma_or_zero(0u32);
    }
}

/// Over a whole pass, every texture used is held exactly once, with the union
/// of all the usages the pass gave it, and no texture the pass did not use is
/// held.
pub proof fn lemma_pass_texture_usage_is_union(uses: Seq<(Texture, TextureUsageFlags)>)
    ensures
        holds_texture_usage_union(uses, record_texture_uses(uses)),
    decreases uses.len(),
{
    if uses.len() == 0 {
        assert forall|h: u64| #[trigger] texture_uses_handle(uses, h) <==> handle_index(
            texture_handles(record_texture_uses(uses)),
            h,
        ) >= 0 by {
            lemma_handle_present(texture_handles(record_texture_uses(uses)), h);
        }
    } else {
        let prev = uses.drop_last();
        lemma_pass_texture_usage_is_union(prev);
        let b = uses.last().0;
        let u = uses.last().1;
        assert(prev.push((b, u)) =~= uses);
        lemma_texture_union_step(prev, b, u);
    }
}

proof fn lemma_texture_uses_handle_push(prev: Seq<(Texture, TextureUsageFlags)>, b: Texture, u: TextureUsageFlags, h: u64)
    ensures
        texture_uses_handle(prev.push((b, u)), h) <==> texture_uses_handle(prev, h) || b.handle == h,
{
    let uses = prev.push((b, u));
    if texture_uses_handle(prev, h) {
        let k = choose|k: int| 0 <= k < prev.len() && #[trigger] prev[k].0.handle == h;
        assert(uses[k] == prev[k]);
    }
    if b.handle == h {
        assert(uses[prev.len() as int].0.handle == h);
    }
    if texture_uses_handle(uses, h) {
        let k = choose|k: int| 0 <= k < uses.len() && #[trigger] uses[k].0.handle == h;
        if k < prev.len() {
            assert(prev[k] == uses[k]);
        }
    }
}

proof fn lemma_texture_union_push(prev: Seq<(Texture, TextureUsageFlags)>, b: Texture, u: TextureUsageFlags, h: u64)
    ensures
        texture_usage_union(prev.push((b, u)), h) == if b.handle == h {
            texture_usage_union(prev, h) | u.bits
        } else {
            texture_usage_union(prev, h)
        },
{
    let uses = prev.push((b, u));
    assert(uses.drop_last() =~= prev);
    assert(uses.last() == (b, u));
    lemma_or_zero(texture_usage_union(prev, h));
}

#[verifier::rlimit(20)]
proof fn lemma_texture_union_step(prev: Seq<(Texture, TextureUsageFlags)>, b: Texture, u: TextureUsageFlags)
    requires
        holds_texture_usage_union(prev, record_texture_uses(prev)),
    ensures
        holds_texture_usage_union(prev.push((b, u)), record_texture_uses(prev.push((b, u)))),
{
    let uses = prev.push((b, u));
    let p = record_texture_uses(prev);
    assert(uses.drop_last() =~= prev);
    assert(uses.last() == (b, u));
    let n = record_texture_uses(uses);
    assert(n == spec_add_texture_usage(p, b, u));
    lemma_add_texture_keeps_unique(p, b, u);
    let hs = texture_handles(p);
    let ns = texture_handles(n);
    let i0 = handle_index(hs, b.handle);
    lemma_handle_present(hs, b.handle);
    if i0 >= 0 {
        assert(n == p.update(i0, (p[i0].0, TextureUsageFlags { bits: p[i0].1.bits | u.bits })));
        assert(ns =~= hs);
        assert forall|h: u64| #[trigger] texture_uses_handle(uses, h) <==> handle_index(ns, h) >= 0 by {
            lemma_texture_uses_handle_push(prev, b, u, h);
            assert(texture_uses_handle(prev, h) <==> handle_index(hs, h) >= 0);
            assert(handle_index(ns, h) == handle_index(hs, h));
            assert(texture_uses_handle(uses, h) <==> (texture_uses_handle(prev, h) || b.handle == h));
            if h == b.handle {
                assert(handle_index(hs, h) == i0);
                assert(handle_index(ns, h) >= 0);
                assert(texture_uses_handle(uses, h));
            } else {
                assert(texture_uses_handle(uses, h) <==> texture_uses_handle(prev, h));
            }
        }
        assert forall|i: int| 0 <= i < n.len() implies (#[trigger] n[i]).1.bits == texture_usage_union(
            uses,
            n[i].0.handle,
        ) by {
            lemma_texture_union_push(prev, b, u, n[i].0.handle);
            assert(hs[i] == p[i].0.handle);
            if i != i0 {
                assert(hs[i] != hs[i0]);
            }
        }
    } else {
        assert(n == p.push((b, u)));
        assert(!texture_uses_handle(prev, b.handle));
        lemma_texture_union_of_unused_handle(prev, b.handle);
        assert(ns =~= hs.push(b.handle));
        assert forall|h: u64| #[trigger] texture_uses_handle(uses, h) <==> handle_index(ns, h) >= 0 by {
            lemma_texture_uses_handle_push(prev, b, u, h);
            assert(texture_uses_handle(prev, h) <==> handle_index(hs, h) >= 0);
            lemma_handle_present(hs, h);
            lemma_handle_present(ns, h);
            if h == b.handle {
                assert(ns[hs.len() as int] == h);
            }
            if handle_index(hs, h) >= 0 {
                let j = handle_index(hs, h);
                assert(ns[j] == h);
            }
            if handle_index(ns, h) >= 0 && h != b.handle {
                let j = handle_index(ns, h);
                assert(j < hs.len());
                assert(hs[j] == h);
            }
        }
        assert forall|i: int| 0 <= i < n.len() implies (#[trigger] n[i]).1.bits == texture_usage_union(
            uses,
            n[i].0.handle,
        ) by {
            lemma_texture_union_push(prev, b, u, n[i].0.handle);
            if i < p.len() {
                assert(n[i] == p[i]);
                assert(hs[i] == p[i].0.handle);
            } else {
                lemma_or_zero(u.bits);
            }
        }
    }
}

/// Whatever a pass has done, its tracker holds each buffer and each texture
/// the pass used exactly once, with the union of every usage the pass gave
/// it, and nothing the pass did not use.
pub proof fn lemma_pass_usage_is_union(t: TrackerView)
    requires
        tracker_records_uses(t),
    ensures
        holds_buffer_usage_union(t.buffer_uses, t.buffers),
        holds_texture_usage_union(t.texture_uses, t.textures),
{
    lemma_pass_buffer_usage_is_union(t.buffer_uses);
    lemma_pass_texture_usage_is_union(t.texture_uses);
}

} // verus!
