use vstd::prelude::*;

use crate::error::{Error, ErrorKind};
use crate::fenced_deleter::{kind_of, FencedDeleter, Resource, ResourceKind, DESTROYED_KINDS};
use crate::render_pass::{RenderPassCache, RenderPassCacheQuery};
use crate::resources::{Adapter, DeviceDescriptor};
use crate::serial::{count_due, lemma_drain_up_to_partition, sorted_by_serial, Serial, SerialQueue};
use crate::vk;

verus! {

/// A command pool with the one command buffer allocated from it.
#[derive(Clone, Copy, Debug, PartialEq, Eq, Structural, Hash, Default)]
pub struct CommandPoolAndBuffer {
    pub pool: u64,
    pub command_buffer: u64,
}

/// What querying a fence reported.
#[derive(Clone, Copy, Debug, PartialEq, Eq, Structural, Hash)]
pub enum FenceStatus {
    Signaled,
    Unsignaled,
    /// A Vulkan result code; `NOT_READY` counts as unsignaled.
    Failed(i32),
}

/// The number of leading statuses that are signaled.
pub open spec fn leading_signaled(statuses: Seq<FenceStatus>) -> nat
    decreases statuses.len(),
{
    if statuses.len() == 0 {
        0
    } else if statuses[0] == FenceStatus::Signaled {
        1 + leading_signaled(statuses.drop_first())
    } else {
        0
    }
}

/// The error the first status that is not signaled reports, if it is a
/// failure other than `NOT_READY`.
pub open spec fn status_failure(statuses: Seq<FenceStatus>) -> Option<i32> {
    let k = leading_signaled(statuses) as int;
    if k < statuses.len() {
        match statuses[k] {
            FenceStatus::Failed(code) => if code == vk::RESULT_NOT_READY {
                None
            } else {
                Some(code)
            },
            _ => None,
        }
    } else {
        None
    }
}

/// Every serial of the queue lies in `lo + 1 ..= hi`.
pub open spec fn serials_within<T>(q: Seq<(T, Serial)>, lo: int, hi: int) -> bool {
    forall|i: int| 0 <= i < q.len() ==> lo < #[trigger] q[i].1.0 <= hi
}

/// Every resource waiting in the deleter waits for a serial of at most `bound`.
#[verifier::opaque]
pub open spec fn deleter_within(d: FencedDeleter, bound: int) -> bool {
    forall|k: ResourceKind| serials_within(#[trigger] d.queue(k), -1, bound)
}

/// Takes the entries of `queue` up to `serial` out of it, and appends their
/// values to `out`; returns those values.
fn drain_values_into<T: Copy>(queue: &mut SerialQueue<T>, serial: Serial, out: &mut Vec<T>) -> (r: Vec<T>)
    requires
        old(queue).wf(),
    ensures
        final(queue).wf(),
        count_due(old(queue)@, serial) <= old(queue)@.len(),
        final(queue)@ == old(queue)@.skip(count_due(old(queue)@, serial) as int),
        r@ == old(queue)@.take(count_due(old(queue)@, serial) as int).map_values(|e: (T, Serial)| e.0),
        final(out)@ == old(out)@ + r@,
{
    proof {
        crate::serial::lemma_count_due_sorted(queue@, serial);
    }
    let drained = queue.drain_up_to(serial);
    let ghost old_out = out@;
    let mut values: Vec<T> = Vec::new();
    let mut j: usize = 0;
    while j < drained.len()
        invariant
            j <= drained@.len(),
            values@ == drained@.take(j as int).map_values(|e: (T, Serial)| e.0),
            out@ == old_out + values@,
        decreases drained@.len() - j,
    {
        values.push(drained[j].0);
        out.push(drained[j].0);
        assert(drained@.take(j + 1) == drained@.take(j as int).push(drained@[j as int]));
        j = j + 1;
    }
    assert(drained@.take(j as int) == drained@);
    values
}

/// The bookkeeping of a device's single queue: which submissions are in
/// flight, which fences and command pools can be reused, what waits for
/// destruction, and the render passes created so far.
pub struct DeviceState {
    fences_in_flight: SerialQueue<u64>,
    commands_in_flight: SerialQueue<CommandPoolAndBuffer>,
    wait_semaphores: Vec<u64>,
    unused_fences: Vec<u64>,
    last_completed_serial: Serial,
    last_submitted_serial: Serial,
    pending_commands: Option<CommandPoolAndBuffer>,
    unused_commands: Vec<CommandPoolAndBuffer>,
    fenced_deleter: FencedDeleter,
    renderpass_cache: RenderPassCache,
}

impl DeviceState {
    pub closed spec fn fences(&self) -> Seq<(u64, Serial)> {
        self.fences_in_flight@
    }

    pub closed spec fn commands(&self) -> Seq<(CommandPoolAndBuffer, Serial)> {
        self.commands_in_flight@
    }

    pub closed spec fn wait_semaphore_list(&self) -> Seq<u64> {
        self.wait_semaphores@
    }

    pub closed spec fn unused_fence_list(&self) -> Seq<u64> {
        self.unused_fences@
    }

    pub closed spec fn unused_command_list(&self) -> Seq<CommandPoolAndBuffer> {
        self.unused_commands@
    }

    pub closed spec fn pending(&self) -> Option<CommandPoolAndBuffer> {
        self.pending_commands
    }

    pub closed spec fn last_completed(&self) -> Serial {
        self.last_completed_serial
    }

    pub closed spec fn last_submitted(&self) -> Serial {
        self.last_submitted_serial
    }

    pub closed spec fn deleter(&self) -> FencedDeleter {
        self.fenced_deleter
    }

    pub closed spec fn cache(&self) -> Seq<(RenderPassCacheQuery, u64)> {
        self.renderpass_cache@
    }

    /// The serial the next submission will get.
    pub open spec fn next_pending(&self) -> Serial {
        Serial((self.last_submitted().0 + 1) as u64)
    }

    /// Completed never passes submitted; fences and commands in flight belong
    /// to submissions after the last completed one; resources wait for at most
    /// the next submission.
    pub open spec fn wf(&self) -> bool {
        &&& self.last_completed().0 <= self.last_submitted().0
        &&& self.last_submitted().0 < u64::MAX - 1
        &&& sorted_by_serial(self.fences())
        &&& sorted_by_serial(self.commands())
        &&& serials_within(self.fences(), self.last_completed().0 as int, self.last_submitted().0 as int)
        &&& serials_within(self.commands(), -1, self.last_submitted().0 as int)
        &&& self.deleter().wf()
        &&& deleter_within(self.deleter(), self.last_submitted().0 + 1)
    }

    /// A device that has submitted nothing: completed serial zero, submitted
    /// serial one.
    pub fn new() -> (r: Self)
        ensures
            r.wf(),
            r.last_completed().0 == 0,
            r.last_submitted().0 == 1,
            r.fences().len() == 0,
            r.commands().len() == 0,
            r.wait_semaphore_list().len() == 0,
            r.unused_fence_list().len() == 0,
            r.unused_command_list().len() == 0,
            r.pending().is_none(),
            r.cache().len() == 0,
            forall|k: ResourceKind| #[trigger] r.deleter().queue(k).len() == 0,
    {
        let r = DeviceState {
            fences_in_flight: SerialQueue::new(),
            commands_in_flight: SerialQueue::new(),
            wait_semaphores: Vec::new(),
            unused_fences: Vec::new(),
            last_completed_serial: Serial::zero(),
            last_submitted_serial: Serial::one(),
            pending_commands: None,
            unused_commands: Vec::new(),
            fenced_deleter: FencedDeleter::new(),
            renderpass_cache: RenderPassCache::new(),
        };
        proof {
            reveal(deleter_within);
        }
        r
    }

    pub fn get_last_submitted_serial(&self) -> (r: Serial)
        ensures
            r == self.last_submitted(),
    {
        self.last_submitted_serial
    }

    pub fn get_last_completed_serial(&self) -> (r: Serial)
        ensures
            r == self.last_completed(),
    {
        self.last_completed_serial
    }

    /// The serial of the next submission: one past the last submitted.
    pub fn get_next_pending_serial(&self) -> (r: Serial)
        requires
            self.wf(),
        ensures
            r == self.next_pending(),
    {
        self.last_submitted_serial.next()
    }

    /// The fences of the submissions in flight, oldest first; their statuses
    /// are what `check_passed_fences` takes.
    pub fn fences_in_flight(&self) -> (r: Vec<u64>)
        ensures
            r@ == self.fences().map_values(|e: (u64, Serial)| e.0),
    {
        let entries = self.fences_in_flight.iter();
        let mut r: Vec<u64> = Vec::new();
        let mut i: usize = 0;
        while i < entries.len()
            invariant
                i <= entries@.len(),
                entries@ == self.fences(),
                r@ == entries@.take(i as int).map_values(|e: (u64, Serial)| e.0),
            decreases entries@.len() - i,
        {
            r.push(entries[i].0);
            assert(entries@.take(i + 1) == entries@.take(i as int).push(entries@[i as int]));
            i = i + 1;
        }
        assert(entries@.take(i as int) == entries@);
        r
    }

    /// The semaphores the next submission waits on.
    pub fn get_wait_semaphores(&self) -> (r: &[u64])
        ensures
            r@ == self.wait_semaphore_list(),
    {
        self.wait_semaphores.as_slice()
    }

    /// Makes the next submission wait on `semaphore`.
    pub fn add_wait_semaphore(&mut self, semaphore: u64)
        requires
            old(self).wf(),
        ensures
            final(self).wf(),
            final(self).wait_semaphore_list() == old(self).wait_semaphore_list().push(semaphore),
            final(self).fences() == old(self).fences(),
            final(self).commands() == old(self).commands(),
            final(self).last_completed() == old(self).last_completed(),
            final(self).last_submitted() == old(self).last_submitted(),
    {
        self.wait_semaphores.push(semaphore);
    }

    /// Queues `resource` for destruction once the next submission has completed.
    pub fn delete_when_unused(&mut self, resource: Resource)
        requires
            old(self).wf(),
        ensures
            final(self).wf(),
            final(self).deleter().queue(kind_of(resource)) == old(self).deleter().queue(
                kind_of(resource),
            ).push((resource, old(self).next_pending())),
            forall|k: ResourceKind|
                k != kind_of(resource) ==> #[trigger] final(self).deleter().queue(k) == old(
                    self,
                ).deleter().queue(k),
            final(self).last_submitted() == old(self).last_submitted(),
            final(self).last_completed() == old(self).last_completed(),
            final(self).fences() == old(self).fences(),
            final(self).commands() == old(self).commands(),
            final(self).wait_semaphore_list() == old(self).wait_semaphore_list(),
            final(self).pending() == old(self).pending(),
            final(self).unused_fence_list() == old(self).unused_fence_list(),
            final(self).unused_command_list() == old(self).unused_command_list(),
            final(self).cache() == old(self).cache(),
    {
        let serial = self.get_next_pending_serial();
        proof {
            reveal(deleter_within);
            let q = self.deleter().queue(kind_of(resource));
            assert(serials_within(q, -1, self.last_submitted().0 + 1));
            if q.len() > 0 {
                assert(q.last() == q[q.len() - 1]);
            }
        }
        let ghost old_d = self.fenced_deleter;
        self.fenced_deleter.delete_when_unused(resource, serial);
        proof {
            reveal(deleter_within);
            assert forall|k: ResourceKind|
                serials_within(#[trigger] self.deleter().queue(k), -1, self.last_submitted().0 + 1) by {
                assert(serials_within(old_d.queue(k), -1, self.last_submitted().0 + 1));
                if k == kind_of(resource) {
                    let q = self.deleter().queue(k);
                    assert forall|i: int| 0 <= i < q.len() implies -1 < #[trigger] q[i].1.0
                        <= self.last_submitted().0 + 1 by {
                        if i < old_d.queue(k).len() {
                            assert(q[i] == old_d.queue(k)[i]);
                        }
                    }
                }
            }
        }
    }

    /// Queues every wait semaphore for destruction once the next submission
    /// has completed, and forgets them.
    pub fn delete_when_unused_wait_semaphores(&mut self)
        requires
            old(self).wf(),
        ensures
            final(self).wf(),
            final(self).wait_semaphore_list().len() == 0,
            final(self).deleter().queue(ResourceKind::Semaphore) == old(self).deleter().queue(
                ResourceKind::Semaphore,
            ) + old(self).wait_semaphore_list().map_values(
                |s: u64| (Resource::Semaphore(s), old(self).next_pending()),
            ),
            forall|k: ResourceKind|
                k != ResourceKind::Semaphore ==> #[trigger] final(self).deleter().queue(k) == old(
                    self,
                ).deleter().queue(k),
            final(self).last_submitted() == old(self).last_submitted(),
            final(self).last_completed() == old(self).last_completed(),
            final(self).fences() == old(self).fences(),
            final(self).commands() == old(self).commands(),
            final(self).pending() == old(self).pending(),
            final(self).unused_fence_list() == old(self).unused_fence_list(),
            final(self).unused_command_list() == old(self).unused_command_list(),
            final(self).cache() == old(self).cache(),
    {
        let ghost old_state = *self;
        let next = self.get_next_pending_serial();
        let mut i: usize = 0;
        while i < self.wait_semaphores.len()
            invariant
                self.wf(),
                i <= self.wait_semaphores@.len(),
                self.wait_semaphores@ == old_state.wait_semaphore_list(),
                next == old_state.next_pending(),
                self.last_submitted() == old_state.last_submitted(),
                self.last_completed() == old_state.last_completed(),
                self.fences() == old_state.fences(),
                self.commands() == old_state.commands(),
                self.pending() == old_state.pending(),
                self.unused_fence_list() == old_state.unused_fence_list(),
                self.unused_command_list() == old_state.unused_command_list(),
                self.cache() == old_state.cache(),
                self.deleter().queue(ResourceKind::Semaphore) == old_state.deleter().queue(
                    ResourceKind::Semaphore,
                ) + old_state.wait_semaphore_list().take(i as int).map_values(
                    |s: u64| (Resource::Semaphore(s), old_state.next_pending()),
                ),
                forall|k: ResourceKind|
                    k != ResourceKind::Semaphore ==> #[trigger] self.deleter().queue(k)
                        == old_state.deleter().queue(k),
            decreases self.wait_semaphores@.len() - i,
        {
            let semaphore = self.wait_semaphores[i];
            let ghost before = self.deleter().queue(ResourceKind::Semaphore);
            self.delete_when_unused(Resource::Semaphore(semaphore));
            proof {
                let f = |s: u64| (Resource::Semaphore(s), old_state.next_pending());
                let w = old_state.wait_semaphore_list();
                assert(w.take(i + 1) == w.take(i as int).push(w[i as int]));
                assert(w.take(i + 1).map_values(f) =~= w.take(i as int).map_values(f).push(f(w[i as int])));
                assert(self.deleter().queue(ResourceKind::Semaphore) =~= old_state.deleter().queue(
                    ResourceKind::Semaphore,
                ) + w.take(i + 1).map_values(f));
            }
            i = i + 1;
        }
        proof {
            assert(old_state.wait_semaphore_list().take(i as int) == old_state.wait_semaphore_list());
        }
        self.wait_semaphores.clear();
    }

    /// Takes in the status of each fence in flight, in queue order. The
    /// leading signaled fences mark their submissions complete: the last
    /// completed serial becomes the serial of the last of them, and every
    /// fence up to that serial is recycled. Returns the recycled fences, which
    /// must be reset, and the error of the first fence whose query failed.
    pub fn check_passed_fences(&mut self, statuses: &[FenceStatus]) -> (r: (Vec<u64>, Option<i32>))
        requires
            old(self).wf(),
            statuses@.len() == old(self).fences().len(),
        ensures
            final(self).wf(),
            r.1 == status_failure(statuses@),
            leading_signaled(statuses@) == 0 ==> {
                &&& r.0@.len() == 0
                &&& final(self).fences() == old(self).fences()
                &&& final(self).unused_fence_list() == old(self).unused_fence_list()
                &&& final(self).last_completed() == old(self).last_completed()
            },
            leading_signaled(statuses@) > 0 ==> {
                let s = old(self).fences()[leading_signaled(statuses@) - 1].1;
                let c = count_due(old(self).fences(), s) as int;
                &&& final(self).last_completed() == s
                &&& r.0@ == old(self).fences().take(c).map_values(|e: (u64, Serial)| e.0)
                &&& final(self).fences() == old(self).fences().skip(c)
                &&& final(self).unused_fence_list() == old(self).unused_fence_list() + r.0@
            },
            final(self).last_completed().0 >= old(self).last_completed().0,
            final(self).last_submitted() == old(self).last_submitted(),
            final(self).commands() == old(self).commands(),
            final(self).deleter() == old(self).deleter(),
            final(self).wait_semaphore_list() == old(self).wait_semaphore_list(),
            final(self).pending() == old(self).pending(),
            final(self).unused_command_list() == old(self).unused_command_list(),
            final(self).cache() == old(self).cache(),
    {
        let mut k: usize = 0;
        while k < statuses.len() && statuses[k] == FenceStatus::Signaled
            invariant
                k <= statuses@.len(),
                forall|j: int| 0 <= j < k ==> statuses@[j] == FenceStatus::Signaled,
            decreases statuses@.len() - k,
        {
            k = k + 1;
        }
        proof {
            lemma_leading_signaled(statuses@, k as int);
        }
        let failure = if k < statuses.len() {
            match statuses[k] {
                FenceStatus::Failed(code) => {
                    if code == vk::RESULT_NOT_READY {
                        None
                    } else {
                        Some(code)
                    }
                },
                _ => None,
            }
        } else {
            None
        };
        let mut recycled: Vec<u64> = Vec::new();
        if k > 0 {
            let last = self.fences_in_flight.iter()[k - 1].1;
            let ghost old_fences = self.fences();
            proof {
                lemma_drain_up_to_partition(old_fences, last);
                assert(serials_within(old_fences, self.last_completed().0 as int, self.last_submitted().0 as int));
                assert(old_fences[k - 1].1.0 > self.last_completed().0);
            }
            recycled = drain_values_into(&mut self.fences_in_flight, last, &mut self.unused_fences);
            proof {
                let c = count_due(old_fences, last) as int;
                assert forall|i: int| 0 <= i < self.fences().len() implies last.0 < #[trigger] self.fences()[i].1.0
                    <= self.last_submitted().0 by {
                    assert(self.fences()[i] == old_fences.skip(c)[i]);
                    assert(old_fences.skip(c)[i] == old_fences[i + c]);
                }
            }
            self.last_completed_serial = last;
        }
        (recycled, failure)
    }

    /// Takes the command pools of completed submissions out of flight and
    /// makes them reusable; returns them, to be reset.
    pub fn recycle_completed_commands(&mut self) -> (r: Vec<CommandPoolAndBuffer>)
        requires
            old(self).wf(),
        ensures
            final(self).wf(),
            r@ == old(self).commands().take(count_due(old(self).commands(), old(self).last_completed()) as int).map_values(
                |e: (CommandPoolAndBuffer, Serial)| e.0,
            ),
            final(self).commands() == old(self).commands().skip(
                count_due(old(self).commands(), old(self).last_completed()) as int,
            ),
            final(self).unused_command_list() == old(self).unused_command_list() + r@,
            final(self).fences() == old(self).fences(),
            final(self).unused_fence_list() == old(self).unused_fence_list(),
            final(self).last_completed() == old(self).last_completed(),
            final(self).last_submitted() == old(self).last_submitted(),
            final(self).deleter() == old(self).deleter(),
            final(self).wait_semaphore_list() == old(self).wait_semaphore_list(),
            final(self).pending() == old(self).pending(),
            final(self).cache() == old(self).cache(),
    {
        let serial = self.last_completed_serial;
        let ghost old_commands = self.commands();
        proof {
            lemma_drain_up_to_partition(old_commands, serial);
        }
        let recycled = drain_values_into(&mut self.commands_in_flight, serial, &mut self.unused_commands);
        proof {
            let c = count_due(old_commands, serial) as int;
            assert forall|i: int| 0 <= i < self.commands().len() implies -1 < #[trigger] self.commands()[i].1.0
                <= self.last_submitted().0 by {
                assert(self.commands()[i] == old_commands[i + c]);
            }
        }
        recycled
    }

    /// Hands out, for destruction, the resources whose submissions have completed.
    pub fn tick_fenced_deleter(&mut self) -> (r: Vec<Resource>)
        requires
            old(self).wf(),
        ensures
            final(self).wf(),
            r@ == old(self).deleter().tick_released(old(self).last_completed(), DESTROYED_KINDS as nat),
            forall|k: ResourceKind|
                k != ResourceKind::SurfaceKeepalive ==> #[trigger] final(self).deleter().queue(k)
                    == crate::fenced_deleter::kept(old(self).deleter().queue(k), old(self).last_completed()),
            final(self).deleter().queue(ResourceKind::SurfaceKeepalive) == old(self).deleter().queue(
                ResourceKind::SurfaceKeepalive,
            ),
            final(self).fences() == old(self).fences(),
            final(self).commands() == old(self).commands(),
            final(self).last_completed() == old(self).last_completed(),
            final(self).last_submitted() == old(self).last_submitted(),
            final(self).wait_semaphore_list() == old(self).wait_semaphore_list(),
            final(self).pending() == old(self).pending(),
            final(self).unused_fence_list() == old(self).unused_fence_list(),
            final(self).unused_command_list() == old(self).unused_command_list(),
            final(self).cache() == old(self).cache(),
    {
        let ghost old_d = self.fenced_deleter;
        let r = self.fenced_deleter.tick(self.last_completed_serial);
        proof {
            reveal(deleter_within);
            assert forall|k: ResourceKind|
                serials_within(#[trigger] self.deleter().queue(k), -1, self.last_submitted().0 + 1) by {
                let q = old_d.queue(k);
                assert(serials_within(q, -1, self.last_submitted().0 + 1));
                if k != ResourceKind::SurfaceKeepalive {
                    assert(crate::fenced_deleter::queue_wf(q, k));
                    let c = count_due(q, self.last_completed_serial) as int;
                    lemma_drain_up_to_partition(q, self.last_completed_serial);
                    assert forall|i: int| 0 <= i < self.deleter().queue(k).len() implies -1
                        < #[trigger] self.deleter().queue(k)[i].1.0 <= self.last_submitted().0 + 1 by {
                        assert(self.deleter().queue(k)[i] == q[i + c]);
                    }
                }
            }
        }
        r
    }

    /// The command buffer being recorded for the next submission, if any.
    pub fn pending_command_buffer(&self) -> (r: Option<u64>)
        ensures
            r == match self.pending() {
                Some(p) => Some(p.command_buffer),
                None => None,
            },
    {
        match self.pending_commands {
            Some(p) => Some(p.command_buffer),
            None => None,
        }
    }

    /// Takes a reusable command pool, the one made reusable last.
    pub fn take_unused_commands(&mut self) -> (r: Option<CommandPoolAndBuffer>)
        requires
            old(self).wf(),
        ensures
            final(self).wf(),
            old(self).unused_command_list().len() == 0 ==> r.is_none() && final(self).unused_command_list()
                == old(self).unused_command_list(),
            old(self).unused_command_list().len() > 0 ==> r == Some(old(self).unused_command_list().last())
                && final(self).unused_command_list() == old(self).unused_command_list().drop_last(),
            final(self).fences() == old(self).fences(),
            final(self).commands() == old(self).commands(),
            final(self).last_completed() == old(self).last_completed(),
            final(self).last_submitted() == old(self).last_submitted(),
            final(self).deleter() == old(self).deleter(),
            final(self).pending() == old(self).pending(),
            final(self).unused_fence_list() == old(self).unused_fence_list(),
            final(self).wait_semaphore_list() == old(self).wait_semaphore_list(),
    {
        self.unused_commands.pop()
    }

    /// Makes `commands` the pool the next submission is recorded into.
    pub fn set_pending_commands(&mut self, commands: CommandPoolAndBuffer)
        requires
            old(self).wf(),
            old(self).pending().is_none(),
        ensures
            final(self).wf(),
            final(self).pending() == Some(commands),
            final(self).fences() == old(self).fences(),
            final(self).commands() == old(self).commands(),
            final(self).last_completed() == old(self).last_completed(),
            final(self).last_submitted() == old(self).last_submitted(),
            final(self).deleter() == old(self).deleter(),
            final(self).unused_fence_list() == old(self).unused_fence_list(),
            final(self).unused_command_list() == old(self).unused_command_list(),
            final(self).wait_semaphore_list() == old(self).wait_semaphore_list(),
    {
        self.pending_commands = Some(commands);
    }

    /// Takes the pool recorded into for the next submission, if any.
    pub fn take_pending_commands(&mut self) -> (r: Option<CommandPoolAndBuffer>)
        requires
            old(self).wf(),
        ensures
            final(self).wf(),
            r == old(self).pending(),
            final(self).pending().is_none(),
            final(self).fences() == old(self).fences(),
            final(self).commands() == old(self).commands(),
            final(self).last_completed() == old(self).last_completed(),
            final(self).last_submitted() == old(self).last_submitted(),
            final(self).deleter() == old(self).deleter(),
            final(self).unused_fence_list() == old(self).unused_fence_list(),
            final(self).unused_command_list() == old(self).unused_command_list(),
            final(self).wait_semaphore_list() == old(self).wait_semaphore_list(),
    {
        self.pending_commands.take()
    }

    /// Takes a reusable fence, the one recycled last.
    pub fn take_unused_fence(&mut self) -> (r: Option<u64>)
        requires
            old(self).wf(),
        ensures
            final(self).wf(),
            old(self).unused_fence_list().len() == 0 ==> r.is_none() && final(self).unused_fence_list()
                == old(self).unused_fence_list(),
            old(self).unused_fence_list().len() > 0 ==> r == Some(old(self).unused_fence_list().last())
                && final(self).unused_fence_list() == old(self).unused_fence_list().drop_last(),
            final(self).fences() == old(self).fences(),
            final(self).commands() == old(self).commands(),
            final(self).last_completed() == old(self).last_completed(),
            final(self).last_submitted() == old(self).last_submitted(),
            final(self).deleter() == old(self).deleter(),
            final(self).pending() == old(self).pending(),
            final(self).unused_command_list() == old(self).unused_command_list(),
            final(self).wait_semaphore_list() == old(self).wait_semaphore_list(),
    {
        self.unused_fences.pop()
    }

    /// Advances the submitted serial for a submission about to be made and
    /// returns it.
    pub fn increment_submitted_serial(&mut self) -> (r: Serial)
        requires
            old(self).wf(),
            old(self).last_submitted().0 < u64::MAX - 2,
        ensures
            final(self).wf(),
            r == old(self).next_pending(),
            final(self).last_submitted() == r,
            final(self).last_completed() == old(self).last_completed(),
            final(self).fences() == old(self).fences(),
            final(self).commands() == old(self).commands(),
            final(self).deleter() == old(self).deleter(),
            final(self).pending() == old(self).pending(),
            final(self).unused_fence_list() == old(self).unused_fence_list(),
            final(self).unused_command_list() == old(self).unused_command_list(),
            final(self).wait_semaphore_list() == old(self).wait_semaphore_list(),
    {
        let r = self.last_submitted_serial.increment();
        proof {
            reveal(deleter_within);
            assert forall|k: ResourceKind|
                serials_within(#[trigger] self.deleter().queue(k), -1, self.last_submitted().0 + 1) by {
                assert(serials_within(self.deleter().queue(k), -1, self.last_submitted().0 as int));
            }
        }
        r
    }

    /// Records that the pending commands were submitted with `fence` under the
    /// just advanced `serial`: both are in flight until it completes, and the
    /// semaphores the submission waited on are destroyed after the next one.
    pub fn submitted(&mut self, commands: CommandPoolAndBuffer, fence: u64, serial: Serial)
        requires
            old(self).wf(),
            serial == old(self).last_submitted(),
            old(self).last_completed().0 < serial.0,
        ensures
            final(self).wf(),
            final(self).fences() == old(self).fences().push((fence, serial)),
            final(self).commands() == old(self).commands().push((commands, serial)),
            final(self).wait_semaphore_list().len() == 0,
            final(self).deleter().queue(ResourceKind::Semaphore) == old(self).deleter().queue(
                ResourceKind::Semaphore,
            ) + old(self).wait_semaphore_list().map_values(
                |s: u64| (Resource::Semaphore(s), old(self).next_pending()),
            ),
            forall|k: ResourceKind|
                k != ResourceKind::Semaphore ==> #[trigger] final(self).deleter().queue(k) == old(
                    self,
                ).deleter().queue(k),
            final(self).last_submitted() == old(self).last_submitted(),
            final(self).last_completed() == old(self).last_completed(),
            final(self).pending() == old(self).pending(),
            final(self).unused_fence_list() == old(self).unused_fence_list(),
            final(self).unused_command_list() == old(self).unused_command_list(),
    {
        let ghost f0 = self.fences();
        let ghost c0 = self.commands();
        proof {
            if f0.len() > 0 {
                assert(f0.last() == f0[f0.len() - 1]);
            }
            if c0.len() > 0 {
                assert(c0.last() == c0[c0.len() - 1]);
            }
        }
        self.fences_in_flight.enqueue(fence, serial);
        self.commands_in_flight.enqueue(commands, serial);
        proof {
            assert forall|i: int| 0 <= i < self.fences().len() implies self.last_completed().0
                < #[trigger] self.fences()[i].1.0 <= self.last_submitted().0 by {
                if i < f0.len() {
                    assert(self.fences()[i] == f0[i]);
                }
            }
            assert forall|i: int| 0 <= i < self.commands().len() implies -1 < #[trigger] self.commands()[i].1.0
                <= self.last_submitted().0 by {
                if i < c0.len() {
                    assert(self.commands()[i] == c0[i]);
                }
            }
        }
        self.delete_when_unused_wait_semaphores();
    }

    /// The render pass created for a query equal to `query`, if any.
    pub fn get_render_pass(&self, query: &RenderPassCacheQuery) -> (r: Option<u64>)
        ensures
            match crate::render_pass::cached_index(self.cache(), *query, 0) {
                Some(k) => r == Some(self.cache()[k].1),
                None => r.is_none(),
            },
    {
        self.renderpass_cache.get_render_pass(query)
    }

    /// Remembers the render pass created for `query`.
    pub fn insert_render_pass(&mut self, query: RenderPassCacheQuery, handle: u64)
        requires
            old(self).wf(),
        ensures
            final(self).wf(),
            final(self).cache() == old(self).cache().push((query, handle)),
            final(self).fences() == old(self).fences(),
            final(self).commands() == old(self).commands(),
            final(self).last_completed() == old(self).last_completed(),
            final(self).last_submitted() == old(self).last_submitted(),
            final(self).deleter() == old(self).deleter(),
    {
        self.renderpass_cache.insert(query, handle);
    }
}

/// What a device destroys when it is dropped.
#[derive(Debug)]
pub struct DeviceTeardown {
    /// Every resource that waited for destruction, from the final tick.
    pub resources: Vec<Resource>,
    /// Fences in flight, then reusable ones.
    pub fences: Vec<u64>,
    /// Command pools in flight, then reusable ones, then the pending one.
    pub command_pools: Vec<u64>,
    /// Semaphores a submission would have waited on.
    pub semaphores: Vec<u64>,
    /// Every cached render pass.
    pub render_passes: Vec<u64>,
}

/// A queue whose serials are all at most `serial` is released whole.
proof fn lemma_kept_empty<T>(q: Seq<(T, Serial)>, serial: Serial)
    requires
        sorted_by_serial(q),
        serials_within(q, -1, serial.0 as int),
    ensures
        q.skip(count_due(q, serial) as int) == Seq::<(T, Serial)>::empty(),
{
    crate::serial::lemma_count_due_sorted(q, serial);
    let c = count_due(q, serial) as int;
    if c < q.len() {
        assert(q[c].1.0 <= serial.0);
    }
    assert(q.skip(c) =~= Seq::<(T, Serial)>::empty());
}

impl DeviceState {
    /// Tears the state down once the GPU is idle and no fence is in flight:
    /// every submission counts as complete, one more serial passes so that
    /// resources waiting for the next submission are released too, and
    /// everything the state holds is handed out for destruction.
    pub fn teardown(&mut self) -> (r: DeviceTeardown)
        requires
            old(self).wf(),
            old(self).fences().len() == 0,
        ensures
            final(self).last_completed().0 == old(self).last_submitted().0 + 1,
            r.resources@ == old(self).deleter().tick_released(
                final(self).last_completed(),
                DESTROYED_KINDS as nat,
            ),
            forall|k: ResourceKind|
                k != ResourceKind::SurfaceKeepalive ==> #[trigger] final(self).deleter().queue(k).len()
                    == 0,
            r.fences@ == old(self).unused_fence_list(),
            r.command_pools@ == old(self).commands().map_values(|e: (CommandPoolAndBuffer, Serial)| e.0.pool)
                + old(self).unused_command_list().map_values(|c: CommandPoolAndBuffer| c.pool) + match old(
                self,
            ).pending() {
                Some(p) => seq![p.pool],
                None => Seq::<u64>::empty(),
            },
            r.semaphores@ == old(self).wait_semaphore_list(),
            r.render_passes@ == old(self).cache().map_values(|e: (RenderPassCacheQuery, u64)| e.1),
            final(self).fences().len() == 0,
            final(self).commands().len() == 0,
            final(self).unused_fence_list().len() == 0,
            final(self).unused_command_list().len() == 0,
            final(self).pending().is_none(),
            final(self).wait_semaphore_list().len() == 0,
            final(self).cache().len() == 0,
    {
        let ghost old_state = *self;
        self.last_completed_serial = self.last_submitted_serial;
        let serial = self.last_completed_serial.increment();
        let ghost old_d = self.fenced_deleter;
        let resources = self.fenced_deleter.tick(serial);
        let ghost d_after = self.fenced_deleter;
        proof {
            reveal(deleter_within);
            assert forall|k: ResourceKind|
                k != ResourceKind::SurfaceKeepalive implies #[trigger] d_after.queue(k).len() == 0 by {
                let q = old_d.queue(k);
                assert(serials_within(q, -1, old_state.last_submitted().0 + 1));
                assert(crate::fenced_deleter::queue_wf(q, k));
                lemma_kept_empty(q, serial);
            }
        }
        let mut fences: Vec<u64> = Vec::new();
        let mut j: usize = 0;
        while j < self.unused_fences.len()
            invariant
                j <= self.unused_fences@.len(),
                fences@ == self.unused_fences@.take(j as int),
            decreases self.unused_fences@.len() - j,
        {
            fences.push(self.unused_fences[j]);
            assert(self.unused_fences@.take(j + 1) == self.unused_fences@.take(j as int).push(
                self.unused_fences@[j as int],
            ));
            j = j + 1;
        }
        assert(self.unused_fences@.take(j as int) == self.unused_fences@);
        self.unused_fences.clear();
        let mut command_pools: Vec<u64> = Vec::new();
        let in_flight = self.commands_in_flight.iter();
        let mut j: usize = 0;
        while j < in_flight.len()
            invariant
                j <= in_flight@.len(),
                command_pools@ == in_flight@.take(j as int).map_values(
                    |e: (CommandPoolAndBuffer, Serial)| e.0.pool,
                ),
            decreases in_flight@.len() - j,
        {
            command_pools.push(in_flight[j].0.pool);
            assert(in_flight@.take(j + 1) == in_flight@.take(j as int).push(in_flight@[j as int]));
            j = j + 1;
        }
        assert(in_flight@.take(j as int) == in_flight@);
        let ghost after_flight = command_pools@;
        let mut j: usize = 0;
        while j < self.unused_commands.len()
            invariant
                j <= self.unused_commands@.len(),
                command_pools@ == after_flight + self.unused_commands@.take(j as int).map_values(
                    |c: CommandPoolAndBuffer| c.pool,
                ),
            decreases self.unused_commands@.len() - j,
        {
            command_pools.push(self.unused_commands[j].pool);
            assert(self.unused_commands@.take(j + 1) == self.unused_commands@.take(j as int).push(
                self.unused_commands@[j as int],
            ));
            j = j + 1;
        }
        assert(self.unused_commands@.take(j as int) == self.unused_commands@);
        let ghost after_unused = command_pools@;
        if let Some(p) = self.pending_commands.take() {
            command_pools.push(p.pool);
            assert(command_pools@ == after_unused + seq![p.pool]);
        } else {
            assert(command_pools@ == after_unused + Seq::<u64>::empty());
        }
        self.unused_commands.clear();
        let n = self.commands_in_flight.len();
        let _ = self.commands_in_flight.drain(0, n);
        let mut semaphores: Vec<u64> = Vec::new();
        std::mem::swap(&mut semaphores, &mut self.wait_semaphores);
        let render_passes = self.renderpass_cache.drain();
        assert(self.deleter() == d_after);
        DeviceTeardown { resources, fences, command_pools, semaphores, render_passes }
    }
}

/// What a queue family offers.
#[derive(Clone, Copy, Debug, PartialEq, Eq, Structural, Hash)]
pub struct QueueFamilyProperties {
    pub queue_flags: u32,
    pub queue_count: u32,
}

/// The family offers every capability asked for, and at least one queue.
pub open spec fn family_fits(family: QueueFamilyProperties, queue_flags: u32) -> bool {
    family.queue_flags & queue_flags == queue_flags && family.queue_count > 0
}

/// The first family from position `i` on that can present to the surface (when
/// one is given) and fits; a failed support query ends the search with its
/// code; without any such family the device cannot display.
pub open spec fn select_family_from(
    families: Seq<QueueFamilyProperties>,
    queue_flags: u32,
    support: Option<Seq<Result<bool, i32>>>,
    i: int,
) -> Result<u32, i32>
    decreases families.len() - i,
{
    if i < 0 || i >= families.len() {
        Err(vk::RESULT_ERROR_INCOMPATIBLE_DISPLAY_KHR)
    } else {
        match support {
            Some(s) => match s[i] {
                Err(code) => Err(code),
                Ok(false) => select_family_from(families, queue_flags, support, i + 1),
                Ok(true) => if family_fits(families[i], queue_flags) {
                    Ok(i as u32)
                } else {
                    select_family_from(families, queue_flags, support, i + 1)
                },
            },
            None => if family_fits(families[i], queue_flags) {
                Ok(i as u32)
            } else {
                select_family_from(families, queue_flags, support, i + 1)
            },
        }
    }
}

pub open spec fn support_view(surface_support: Option<&[Result<bool, i32>]>) -> Option<Seq<Result<bool, i32>>> {
    match surface_support {
        Some(s) => Some(s@),
        None => None,
    }
}

/// Selects the queue family to create the device's queue from: the first one
/// with the requested capabilities and at least one queue that, when a surface
/// is given, can present to it. `surface_support[i]` is what asking whether
/// family `i` can present reported.
pub fn select_queue_family_index(
    queue_families: &[QueueFamilyProperties],
    queue_flags: u32,
    surface_support: Option<&[Result<bool, i32>]>,
) -> (r: Result<u32, Error>)
    requires
        queue_families@.len() <= u32::MAX,
        surface_support matches Some(s) ==> s@.len() == queue_families@.len(),
    ensures
        match select_family_from(queue_families@, queue_flags, support_view(surface_support), 0) {
            Ok(i) => r matches Ok(j) && j == i,
            Err(code) => r matches Err(e) && e.kind == ErrorKind::Code(code),
        },
{
    let mut i: usize = 0;
    while i < queue_families.len()
        invariant
            i <= queue_families@.len(),
            queue_families@.len() <= u32::MAX,
            surface_support matches Some(s) ==> s@.len() == queue_families@.len(),
            select_family_from(queue_families@, queue_flags, support_view(surface_support), 0)
                == select_family_from(queue_families@, queue_flags, support_view(surface_support), i as int),
        decreases queue_families@.len() - i,
    {
        let family = queue_families[i];
        let mut supported = true;
        if let Some(s) = surface_support {
            match s[i] {
                Err(code) => {
                    return Err(Error::from_code(code));
                },
                Ok(b) => {
                    supported = b;
                },
            }
        }
        if supported && family.queue_flags & queue_flags == queue_flags && family.queue_count > 0 {
            return Ok(i as u32);
        }
        i = i + 1;
    }
    Err(Error::from_code(vk::RESULT_ERROR_INCOMPATIBLE_DISPLAY_KHR))
}

/// How a device is created.
#[derive(Clone, Copy, Debug, PartialEq, Eq, Structural, Hash)]
pub struct DevicePlan {
    /// Whether the swapchain extension is enabled: exactly when a surface
    /// must be supported.
    pub enable_swapchain: bool,
    pub queue_family_index: u32,
    /// Whether non-solid fill modes are enabled: exactly when the adapter
    /// supports them.
    pub fill_mode_non_solid: bool,
}

/// The capabilities the device's one queue needs: graphics, compute and transfer.
pub open spec fn device_queue_flags() -> u32 {
    vk::QUEUE_COMPUTE | vk::QUEUE_GRAPHICS | vk::QUEUE_TRANSFER
}

impl Adapter {
    /// Works out how to create a device for the descriptor from this adapter,
    /// given the adapter's queue families, whether each can present to the
    /// descriptor's surface (asked only when one is given), and the adapter's
    /// non-solid fill mode feature.
    pub fn create_device(
        &self,
        descriptor: &DeviceDescriptor,
        queue_families: &[QueueFamilyProperties],
        surface_support: Option<&[Result<bool, i32>]>,
        fill_mode_non_solid_supported: u32,
    ) -> (r: Result<DevicePlan, Error>)
        requires
            queue_families@.len() <= u32::MAX,
            surface_support matches Some(s) ==> s@.len() == queue_families@.len(),
            surface_support is Some <==> descriptor.surface_support is Some,
        ensures
            match select_family_from(queue_families@, device_queue_flags(), support_view(surface_support), 0) {
                Ok(i) => r matches Ok(p) && p == (DevicePlan {
                    enable_swapchain: descriptor.surface_support is Some,
                    queue_family_index: i,
                    fill_mode_non_solid: fill_mode_non_solid_supported > 0,
                }),
                Err(code) => r matches Err(e) && e.kind == ErrorKind::Code(code),
            },
    {
        let queue_flags = vk::QUEUE_COMPUTE | vk::QUEUE_GRAPHICS | vk::QUEUE_TRANSFER;
        match select_queue_family_index(queue_families, queue_flags, surface_support) {
            Ok(queue_family_index) => Ok(DevicePlan {
                enable_swapchain: descriptor.surface_support.is_some(),
                queue_family_index,
                fill_mode_non_solid: fill_mode_non_solid_supported > 0,
            }),
            Err(e) => Err(e),
        }
    }
}

/// Proves what `leading_signaled` is from a prefix of signaled statuses that
/// ends at `k`.
proof fn lemma_leading_signaled(s: Seq<FenceStatus>, k: int)
    requires
        0 <= k <= s.len(),
        forall|j: int| 0 <= j < k ==> s[j] == FenceStatus::Signaled,
        k == s.len() || s[k] != FenceStatus::Signaled,
    ensures
        leading_signaled(s) == k,
    decreases k,
{
    if k > 0 {
        let t = s.drop_first();
        assert forall|j: int| 0 <= j < k - 1 implies t[j] == FenceStatus::Signaled by {
            assert(t[j] == s[j + 1]);
        }
        if k - 1 < t.len() {
            assert(t[k - 1] == s[k]);
        }
        lemma_leading_signaled(t, k - 1);
    }
}

} // verus!
