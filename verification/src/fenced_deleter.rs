use vstd::prelude::*;

use crate::serial::{count_due, lemma_drain_up_to_partition, sorted_by_serial, Serial, SerialQueue};

verus! {

/// A Vulkan object whose destruction waits until the GPU no longer uses it,
/// known by its raw handles. Buffers and images carry the handle of their
/// memory allocation; a swapchain carries the surface it presents to.
#[derive(Clone, Copy, Debug, PartialEq, Eq, Structural, Hash)]
pub enum Resource {
    Swapchain { swapchain: u64, surface: u64 },
    Semaphore(u64),
    Buffer { buffer: u64, allocation: u64 },
    BufferView(u64),
    Image { image: u64, allocation: u64 },
    ImageView(u64),
    Sampler(u64),
    DescriptorSetLayout(u64),
    DescriptorPool(u64),
    ShaderModule(u64),
    PipelineLayout(u64),
    Pipeline(u64),
    Framebuffer(u64),
    /// A surface kept alive while the device may still present to it.
    SurfaceKeepalive(u64),
}

/// The kinds of resources, each with a queue of its own.
#[derive(Clone, Copy, Debug, PartialEq, Eq, Structural, Hash)]
pub enum ResourceKind {
    Swapchain,
    Semaphore,
    Buffer,
    BufferView,
    Image,
    ImageView,
    Sampler,
    DescriptorSetLayout,
    DescriptorPool,
    ShaderModule,
    PipelineLayout,
    Pipeline,
    Framebuffer,
    SurfaceKeepalive,
}

pub open spec fn kind_of(r: Resource) -> ResourceKind {
    match r {
        Resource::Swapchain { .. } => ResourceKind::Swapchain,
        Resource::Semaphore(_) => ResourceKind::Semaphore,
        Resource::Buffer { .. } => ResourceKind::Buffer,
        Resource::BufferView(_) => ResourceKind::BufferView,
        Resource::Image { .. } => ResourceKind::Image,
        Resource::ImageView(_) => ResourceKind::ImageView,
        Resource::Sampler(_) => ResourceKind::Sampler,
        Resource::DescriptorSetLayout(_) => ResourceKind::DescriptorSetLayout,
        Resource::DescriptorPool(_) => ResourceKind::DescriptorPool,
        Resource::ShaderModule(_) => ResourceKind::ShaderModule,
        Resource::PipelineLayout(_) => ResourceKind::PipelineLayout,
        Resource::Pipeline(_) => ResourceKind::Pipeline,
        Resource::Framebuffer(_) => ResourceKind::Framebuffer,
        Resource::SurfaceKeepalive(_) => ResourceKind::SurfaceKeepalive,
    }
}

/// The number of kinds a tick destroys.
pub const DESTROYED_KINDS: usize = 13;

/// The position of a kind in the order in which a tick destroys resources;
/// surfaces kept alive come last and are never destroyed by a tick.
pub open spec fn destroy_rank(k: ResourceKind) -> int {
    match k {
        ResourceKind::Swapchain => 0,
        ResourceKind::Semaphore => 1,
        ResourceKind::Buffer => 2,
        ResourceKind::Image => 3,
        ResourceKind::ImageView => 4,
        ResourceKind::BufferView => 5,
        ResourceKind::Sampler => 6,
        ResourceKind::DescriptorSetLayout => 7,
        ResourceKind::DescriptorPool => 8,
        ResourceKind::ShaderModule => 9,
        ResourceKind::PipelineLayout => 10,
        ResourceKind::Pipeline => 11,
        ResourceKind::Framebuffer => 12,
        ResourceKind::SurfaceKeepalive => 13,
    }
}

/// The kind a tick destroys in position `i`.
pub open spec fn destroyed_kind(i: int) -> ResourceKind {
    if i == 0 {
        ResourceKind::Swapchain
    } else if i == 1 {
        ResourceKind::Semaphore
    } else if i == 2 {
        ResourceKind::Buffer
    } else if i == 3 {
        ResourceKind::Image
    } else if i == 4 {
        ResourceKind::ImageView
    } else if i == 5 {
        ResourceKind::BufferView
    } else if i == 6 {
        ResourceKind::Sampler
    } else if i == 7 {
        ResourceKind::DescriptorSetLayout
    } else if i == 8 {
        ResourceKind::DescriptorPool
    } else if i == 9 {
        ResourceKind::ShaderModule
    } else if i == 10 {
        ResourceKind::PipelineLayout
    } else if i == 11 {
        ResourceKind::Pipeline
    } else {
        ResourceKind::Framebuffer
    }
}

fn destroyed_kind_at(i: usize) -> (k: ResourceKind)
    requires
        i < DESTROYED_KINDS,
    ensures
        k == destroyed_kind(i as int),
        destroy_rank(k) == i,
{
    if i == 0 {
        ResourceKind::Swapchain
    } else if i == 1 {
        ResourceKind::Semaphore
    } else if i == 2 {
        ResourceKind::Buffer
    } else if i == 3 {
        ResourceKind::Image
    } else if i == 4 {
        ResourceKind::ImageView
    } else if i == 5 {
        ResourceKind::BufferView
    } else if i == 6 {
        ResourceKind::Sampler
    } else if i == 7 {
        ResourceKind::DescriptorSetLayout
    } else if i == 8 {
        ResourceKind::DescriptorPool
    } else if i == 9 {
        ResourceKind::ShaderModule
    } else if i == 10 {
        ResourceKind::PipelineLayout
    } else if i == 11 {
        ResourceKind::Pipeline
    } else {
        ResourceKind::Framebuffer
    }
}

/// The resources of a queue that are released once `serial` has completed.
pub open spec fn released(q: Seq<(Resource, Serial)>, serial: Serial) -> Seq<Resource> {
    q.take(count_due(q, serial) as int).map_values(|e: (Resource, Serial)| e.0)
}

/// The entries of a queue that stay after `serial` has completed.
pub open spec fn kept(q: Seq<(Resource, Serial)>, serial: Serial) -> Seq<(Resource, Serial)> {
    q.skip(count_due(q, serial) as int)
}

/// A queue is ordered by serial and holds resources of kind `k` only.
pub open spec fn queue_wf(q: Seq<(Resource, Serial)>, k: ResourceKind) -> bool {
    sorted_by_serial(q) && forall|i: int| 0 <= i < q.len() ==> kind_of(#[trigger] q[i].0) == k
}

proof fn lemma_kept_wf(q: Seq<(Resource, Serial)>, k: ResourceKind, serial: Serial)
    requires
        queue_wf(q, k),
    ensures
        queue_wf(kept(q, serial), k),
{
    lemma_drain_up_to_partition(q, serial);
    let c = count_due(q, serial) as int;
    assert forall|i: int| 0 <= i < kept(q, serial).len() implies kind_of(
        #[trigger] kept(q, serial)[i].0,
    ) == k by {
        assert(kept(q, serial)[i] == q[i + c]);
    }
}

proof fn lemma_push_wf(q: Seq<(Resource, Serial)>, k: ResourceKind, r: Resource, serial: Serial)
    requires
        queue_wf(q, k),
        kind_of(r) == k,
        q.len() == 0 || q.last().1.0 <= serial.0,
    ensures
        queue_wf(q.push((r, serial)), k),
{
    let p = q.push((r, serial));
    assert forall|i: int, j: int| 0 <= i <= j < p.len() implies p[i].1.0 <= p[j].1.0 by {
        if j == q.len() && i < q.len() {
            assert(q[i].1.0 <= q.last().1.0);
        }
    }
    assert forall|i: int| 0 <= i < p.len() implies kind_of(#[trigger] p[i].0) == k by {
        if i < q.len() {
            assert(p[i] == q[i]);
        }
    }
}

/// Keeps resources alive until the GPU has completed the submission they were
/// last used in, then hands them out for destruction.
#[derive(Debug)]
pub struct FencedDeleter {
    swapchains: SerialQueue<Resource>,
    semaphores: SerialQueue<Resource>,
    buffers: SerialQueue<Resource>,
    buffer_views: SerialQueue<Resource>,
    images: SerialQueue<Resource>,
    image_views: SerialQueue<Resource>,
    samplers: SerialQueue<Resource>,
    descriptor_set_layouts: SerialQueue<Resource>,
    descriptor_pools: SerialQueue<Resource>,
    shader_modules: SerialQueue<Resource>,
    pipeline_layouts: SerialQueue<Resource>,
    pipelines: SerialQueue<Resource>,
    framebuffers: SerialQueue<Resource>,
    surface_keepalive: SerialQueue<Resource>,
}

impl FencedDeleter {
    /// The resources of kind `k` waiting for destruction, each with the serial
    /// after whose completion it may be destroyed.
    pub closed spec fn queue(&self, k: ResourceKind) -> Seq<(Resource, Serial)> {
        match k {
            ResourceKind::Swapchain => self.swapchains@,
            ResourceKind::Semaphore => self.semaphores@,
            ResourceKind::Buffer => self.buffers@,
            ResourceKind::BufferView => self.buffer_views@,
            ResourceKind::Image => self.images@,
            ResourceKind::ImageView => self.image_views@,
            ResourceKind::Sampler => self.samplers@,
            ResourceKind::DescriptorSetLayout => self.descriptor_set_layouts@,
            ResourceKind::DescriptorPool => self.descriptor_pools@,
            ResourceKind::ShaderModule => self.shader_modules@,
            ResourceKind::PipelineLayout => self.pipeline_layouts@,
            ResourceKind::Pipeline => self.pipelines@,
            ResourceKind::Framebuffer => self.framebuffers@,
            ResourceKind::SurfaceKeepalive => self.surface_keepalive@,
        }
    }

    /// Each queue is ordered by serial and holds resources of its own kind.
    pub open spec fn wf(&self) -> bool {
        forall|k: ResourceKind| #[trigger] queue_wf(self.queue(k), k)
    }

    /// The resources a tick at `serial` destroys from the first `n` kinds of
    /// the destruction order, in that order.
    pub open spec fn tick_released(&self, serial: Serial, n: nat) -> Seq<Resource>
        decreases n,
    {
        if n == 0 {
            Seq::empty()
        } else {
            self.tick_released(serial, (n - 1) as nat) + released(
                self.queue(destroyed_kind(n - 1)),
                serial,
            )
        }
    }

    proof fn lemma_wf_queues(&self)
        requires
            self.wf(),
        ensures
            self.swapchains.wf(),
            self.semaphores.wf(),
            self.buffers.wf(),
            self.buffer_views.wf(),
            self.images.wf(),
            self.image_views.wf(),
            self.samplers.wf(),
            self.descriptor_set_layouts.wf(),
            self.descriptor_pools.wf(),
            self.shader_modules.wf(),
            self.pipeline_layouts.wf(),
            self.pipelines.wf(),
            self.framebuffers.wf(),
            self.surface_keepalive.wf(),
    {
        assert(queue_wf(self.queue(ResourceKind::Swapchain), ResourceKind::Swapchain));
        assert(queue_wf(self.queue(ResourceKind::Semaphore), ResourceKind::Semaphore));
        assert(queue_wf(self.queue(ResourceKind::Buffer), ResourceKind::Buffer));
        assert(queue_wf(self.queue(ResourceKind::BufferView), ResourceKind::BufferView));
        assert(queue_wf(self.queue(ResourceKind::Image), ResourceKind::Image));
        assert(queue_wf(self.queue(ResourceKind::ImageView), ResourceKind::ImageView));
        assert(queue_wf(self.queue(ResourceKind::Sampler), ResourceKind::Sampler));
        assert(queue_wf(self.queue(ResourceKind::DescriptorSetLayout), ResourceKind::DescriptorSetLayout));
        assert(queue_wf(self.queue(ResourceKind::DescriptorPool), ResourceKind::DescriptorPool));
        assert(queue_wf(self.queue(ResourceKind::ShaderModule), ResourceKind::ShaderModule));
        assert(queue_wf(self.queue(ResourceKind::PipelineLayout), ResourceKind::PipelineLayout));
        assert(queue_wf(self.queue(ResourceKind::Pipeline), ResourceKind::Pipeline));
        assert(queue_wf(self.queue(ResourceKind::Framebuffer), ResourceKind::Framebuffer));
        assert(queue_wf(self.queue(ResourceKind::SurfaceKeepalive), ResourceKind::SurfaceKeepalive));
    }

    /// A deleter with nothing to destroy.
    pub fn new() -> (r: Self)
        ensures
            r.wf(),
            forall|k: ResourceKind| #[trigger] r.queue(k) == Seq::<(Resource, Serial)>::empty(),
    {
        FencedDeleter {
            swapchains: SerialQueue::new(),
            semaphores: SerialQueue::new(),
            buffers: SerialQueue::new(),
            buffer_views: SerialQueue::new(),
            images: SerialQueue::new(),
            image_views: SerialQueue::new(),
            samplers: SerialQueue::new(),
            descriptor_set_layouts: SerialQueue::new(),
            descriptor_pools: SerialQueue::new(),
            shader_modules: SerialQueue::new(),
            pipeline_layouts: SerialQueue::new(),
            pipelines: SerialQueue::new(),
            framebuffers: SerialQueue::new(),
            surface_keepalive: SerialQueue::new(),
        }
    }

    /// Queues `resource` for destruction once `after_completed_serial` has
    /// completed. Serials of one kind must be queued in non-decreasing order.
    pub fn delete_when_unused(&mut self, resource: Resource, after_completed_serial: Serial)
        requires
            old(self).wf(),
            old(self).queue(kind_of(resource)).len() == 0 || old(self).queue(
                kind_of(resource),
            ).last().1.0 <= after_completed_serial.0,
        ensures
            final(self).wf(),
            final(self).queue(kind_of(resource)) == old(self).queue(kind_of(resource)).push(
                (resource, after_completed_serial),
            ),
            forall|k: ResourceKind|
                k != kind_of(resource) ==> #[trigger] final(self).queue(k) == old(self).queue(k),
    {
        proof {
            self.lemma_wf_queues();
        }
        let ghost old_d = *self;
        match resource {
            Resource::Swapchain { .. } => self.swapchains.enqueue(resource, after_completed_serial),
            Resource::Semaphore(_) => self.semaphores.enqueue(resource, after_completed_serial),
            Resource::Buffer { .. } => self.buffers.enqueue(resource, after_completed_serial),
            Resource::BufferView(_) => self.buffer_views.enqueue(resource, after_completed_serial),
            Resource::Image { .. } => self.images.enqueue(resource, after_completed_serial),
            Resource::ImageView(_) => self.image_views.enqueue(resource, after_completed_serial),
            Resource::Sampler(_) => self.samplers.enqueue(resource, after_completed_serial),
            Resource::DescriptorSetLayout(_) => self.descriptor_set_layouts.enqueue(
                resource,
                after_completed_serial,
            ),
            Resource::DescriptorPool(_) => self.descriptor_pools.enqueue(
                resource,
                after_completed_serial,
            ),
            Resource::ShaderModule(_) => self.shader_modules.enqueue(
                resource,
                after_completed_serial,
            ),
            Resource::PipelineLayout(_) => self.pipeline_layouts.enqueue(
                resource,
                after_completed_serial,
            ),
            Resource::Pipeline(_) => self.pipelines.enqueue(resource, after_completed_serial),
            Resource::Framebuffer(_) => self.framebuffers.enqueue(resource, after_completed_serial),
            Resource::SurfaceKeepalive(_) => self.surface_keepalive.enqueue(
                resource,
                after_completed_serial,
            ),
        }
        proof {
            let kr = kind_of(resource);
            assert(queue_wf(old_d.queue(kr), kr));
            lemma_push_wf(old_d.queue(kr), kr, resource, after_completed_serial);
            assert forall|k: ResourceKind| #[trigger] queue_wf(self.queue(k), k) by {
                if k != kr {
                    assert(self.queue(k) == old_d.queue(k));
                    assert(queue_wf(old_d.queue(k), k));
                }
            }
        }
    }

    /// Drains the queue of one kind up to `serial`.
    fn drain_kind(&mut self, kind: ResourceKind, serial: Serial) -> (r: Vec<(Resource, Serial)>)
        requires
            old(self).wf(),
        ensures
            final(self).wf(),
            r@ == old(self).queue(kind).take(count_due(old(self).queue(kind), serial) as int),
            final(self).queue(kind) == kept(old(self).queue(kind), serial),
            forall|k: ResourceKind| k != kind ==> #[trigger] final(self).queue(k) == old(self).queue(k),
    {
        proof {
            self.lemma_wf_queues();
        }
        let ghost old_d = *self;
        let r = match kind {
            ResourceKind::Swapchain => self.swapchains.drain_up_to(serial),
            ResourceKind::Semaphore => self.semaphores.drain_up_to(serial),
            ResourceKind::Buffer => self.buffers.drain_up_to(serial),
            ResourceKind::BufferView => self.buffer_views.drain_up_to(serial),
            ResourceKind::Image => self.images.drain_up_to(serial),
            ResourceKind::ImageView => self.image_views.drain_up_to(serial),
            ResourceKind::Sampler => self.samplers.drain_up_to(serial),
            ResourceKind::DescriptorSetLayout => self.descriptor_set_layouts.drain_up_to(serial),
            ResourceKind::DescriptorPool => self.descriptor_pools.drain_up_to(serial),
            ResourceKind::ShaderModule => self.shader_modules.drain_up_to(serial),
            ResourceKind::PipelineLayout => self.pipeline_layouts.drain_up_to(serial),
            ResourceKind::Pipeline => self.pipelines.drain_up_to(serial),
            ResourceKind::Framebuffer => self.framebuffers.drain_up_to(serial),
            ResourceKind::SurfaceKeepalive => self.surface_keepalive.drain_up_to(serial),
        };
        proof {
            assert(queue_wf(old_d.queue(kind), kind));
            lemma_kept_wf(old_d.queue(kind), kind, serial);
            assert forall|k: ResourceKind| #[trigger] queue_wf(self.queue(k), k) by {
                if k != kind {
                    assert(self.queue(k) == old_d.queue(k));
                    assert(queue_wf(old_d.queue(k), k));
                }
            }
        }
        r
    }

    /// Hands out, for destruction, every resource whose serial is at most
    /// `last_completed_serial`: swapchains, semaphores, buffers, images, image
    /// views, buffer views, samplers, descriptor set layouts, descriptor
    /// pools, shader modules, pipeline layouts, pipelines and framebuffers, in
    /// that order, each kind in queue order. Surfaces kept alive stay.
    #[verifier::rlimit(40)]
    pub fn tick(&mut self, last_completed_serial: Serial) -> (r: Vec<Resource>)
        requires
            old(self).wf(),
        ensures
            final(self).wf(),
            r@ == old(self).tick_released(last_completed_serial, DESTROYED_KINDS as nat),
            forall|k: ResourceKind|
                k != ResourceKind::SurfaceKeepalive ==> #[trigger] final(self).queue(k) == kept(
                    old(self).queue(k),
                    last_completed_serial,
                ),
            final(self).queue(ResourceKind::SurfaceKeepalive) == old(self).queue(
                ResourceKind::SurfaceKeepalive,
            ),
    {
        let ghost old_d = *self;
        let mut out: Vec<Resource> = Vec::new();
        let mut i: usize = 0;
        while i < DESTROYED_KINDS
            invariant
                i <= DESTROYED_KINDS,
                self.wf(),
                out@ == old_d.tick_released(last_completed_serial, i as nat),
                forall|k: ResourceKind|
                    #![trigger self.queue(k)]
                    destroy_rank(k) < i ==> self.queue(k) == kept(old_d.queue(k), last_completed_serial),
                forall|k: ResourceKind|
                    #![trigger self.queue(k)]
                    destroy_rank(k) >= i ==> self.queue(k) == old_d.queue(k),
            decreases DESTROYED_KINDS - i,
        {
            let kind = destroyed_kind_at(i);
            let ghost before = out@;
            let drained = self.drain_kind(kind, last_completed_serial);
            let mut j: usize = 0;
            while j < drained.len()
                invariant
                    j <= drained@.len(),
                    out@ == before + drained@.take(j as int).map_values(|e: (Resource, Serial)| e.0),
                decreases drained@.len() - j,
            {
                out.push(drained[j].0);
                assert(drained@.take(j + 1) == drained@.take(j as int).push(drained@[j as int]));
                j = j + 1;
            }
            proof {
                assert(drained@.take(j as int) == drained@);
                assert(drained@.map_values(|e: (Resource, Serial)| e.0) == released(
                    old_d.queue(destroyed_kind(i as int)),
                    last_completed_serial,
                ));
                assert(out@ == old_d.tick_released(last_completed_serial, (i + 1) as nat));
            }
            i = i + 1;
        }
        out
    }

    /// Hands out every swapchain, whatever its serial.
    pub fn purge_swapchains(&mut self) -> (r: Vec<Resource>)
        requires
            old(self).wf(),
        ensures
            final(self).wf(),
            r@ == old(self).queue(ResourceKind::Swapchain).map_values(|e: (Resource, Serial)| e.0),
            final(self).queue(ResourceKind::Swapchain) == Seq::<(Resource, Serial)>::empty(),
            forall|k: ResourceKind|
                k != ResourceKind::Swapchain ==> #[trigger] final(self).queue(k) == old(self).queue(k),
    {
        proof {
            self.lemma_wf_queues();
        }
        let ghost old_d = *self;
        let n = self.swapchains.len();
        let drained = self.swapchains.drain(0, n);
        let mut out: Vec<Resource> = Vec::new();
        let mut j: usize = 0;
        while j < drained.len()
            invariant
                j <= drained@.len(),
                out@ == drained@.take(j as int).map_values(|e: (Resource, Serial)| e.0),
            decreases drained@.len() - j,
        {
            out.push(drained[j].0);
            assert(drained@.take(j + 1) == drained@.take(j as int).push(drained@[j as int]));
            j = j + 1;
        }
        proof {
            assert(drained@.take(j as int) == drained@);
            assert(drained@ == old_d.queue(ResourceKind::Swapchain));
            assert(self.queue(ResourceKind::Swapchain) =~= Seq::<(Resource, Serial)>::empty());
            assert forall|k: ResourceKind| #[trigger] queue_wf(self.queue(k), k) by {
                if k != ResourceKind::Swapchain {
                    assert(self.queue(k) == old_d.queue(k));
                    assert(queue_wf(old_d.queue(k), k));
                }
            }
        }
        out
    }

    /// No resource waits for destruction.
    pub fn is_empty(&self) -> (r: bool)
        ensures
            r == forall|k: ResourceKind| #[trigger] self.queue(k).len() == 0,
    {
        let r = self.swapchains.is_empty() && self.semaphores.is_empty() && self.buffers.is_empty()
            && self.buffer_views.is_empty() && self.images.is_empty() && self.image_views.is_empty()
            && self.samplers.is_empty() && self.descriptor_set_layouts.is_empty()
            && self.descriptor_pools.is_empty() && self.shader_modules.is_empty()
            && self.pipeline_layouts.is_empty() && self.pipelines.is_empty()
            && self.framebuffers.is_empty() && self.surface_keepalive.is_empty();
        proof {
            if !r {
                if self.swapchains@.len() != 0 { assert(self.queue(ResourceKind::Swapchain).len() != 0); }
                if self.semaphores@.len() != 0 { assert(self.queue(ResourceKind::Semaphore).len() != 0); }
                if self.buffers@.len() != 0 { assert(self.queue(ResourceKind::Buffer).len() != 0); }
                if self.buffer_views@.len() != 0 { assert(self.queue(ResourceKind::BufferView).len() != 0); }
                if self.images@.len() != 0 { assert(self.queue(ResourceKind::Image).len() != 0); }
                if self.image_views@.len() != 0 { assert(self.queue(ResourceKind::ImageView).len() != 0); }
                if self.samplers@.len() != 0 { assert(self.queue(ResourceKind::Sampler).len() != 0); }
                if self.descriptor_set_layouts@.len() != 0 { assert(self.queue(ResourceKind::DescriptorSetLayout).len() != 0); }
                if self.descriptor_pools@.len() != 0 { assert(self.queue(ResourceKind::DescriptorPool).len() != 0); }
                if self.shader_modules@.len() != 0 { assert(self.queue(ResourceKind::ShaderModule).len() != 0); }
                if self.pipeline_layouts@.len() != 0 { assert(self.queue(ResourceKind::PipelineLayout).len() != 0); }
                if self.pipelines@.len() != 0 { assert(self.queue(ResourceKind::Pipeline).len() != 0); }
                if self.framebuffers@.len() != 0 { assert(self.queue(ResourceKind::Framebuffer).len() != 0); }
                if self.surface_keepalive@.len() != 0 { assert(self.queue(ResourceKind::SurfaceKeepalive).len() != 0); }
            }
        }
        r
    }
}

/// A tick at `serial` destroys a queued resource exactly when the serial it
/// waits for is at most `serial`: of each queue, the entries released are all
/// due, the entries kept are all still pending, and released followed by kept
/// is the queue as it was.
pub proof fn lemma_tick_releases_exactly_due(d: FencedDeleter, serial: Serial, k: ResourceKind)
    requires
        d.wf(),
    ensures
        ({
            let q = d.queue(k);
            let c = count_due(q, serial) as int;
            &&& q.take(c) + kept(q, serial) == q
            &&& forall|i: int| 0 <= i < c ==> #[trigger] q[i].1.0 <= serial.0
            &&& forall|i: int| 0 <= i < kept(q, serial).len() ==> #[trigger] kept(q, serial)[i].1.0 > serial.0
            &&& released(q, serial).len() == c
        }),
{
    assert(queue_wf(d.queue(k), k));
    lemma_drain_up_to_partition(d.queue(k), serial);
}

} // verus!
