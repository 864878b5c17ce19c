use vstd::prelude::*;

use crate::device::DeviceState;
use crate::serial::Serial;

verus! {

/// A point in the queue's submissions: it is signaled once every submission
/// made before it was created (or last reset) has completed.
#[derive(Clone, Copy, Debug, PartialEq, Eq, Structural, Hash)]
pub struct Fence {
    serial: Serial,
}

impl Fence {
    /// The serial the fence waits for.
    pub closed spec fn serial(&self) -> Serial {
        self.serial
    }

    /// A fence for the submissions made so far: it waits for the serial of
    /// the next submission.
    pub fn new(state: &DeviceState) -> (r: Fence)
        requires
            state.wf(),
        ensures
            r.serial() == state.next_pending(),
    {
        Fence { serial: state.get_next_pending_serial() }
    }

    /// Moves the fence to the submissions made so far. Always succeeds.
    pub fn reset(&mut self, state: &DeviceState) -> (r: Result<(), i32>)
        requires
            state.wf(),
        ensures
            r is Ok,
            final(self).serial() == state.next_pending(),
    {
        self.serial = state.get_next_pending_serial();
        Ok(())
    }

    /// Whether the submissions the fence covers have completed; waiting ends
    /// when this holds.
    pub fn is_signaled(&self, state: &DeviceState) -> (r: bool)
        ensures
            r == (self.serial().0 <= state.last_completed().0),
    {
        self.serial.0 <= state.get_last_completed_serial().0
    }
}

/// Waiting for a fence covers every submission made before it was created: if
/// the fence was created in state `created` and is signaled in state `later`,
/// every submission in flight at its creation has completed in `later`.
pub proof fn lemma_signaled_fence_covers_prior_submissions(created: DeviceState, fence: Fence, later: DeviceState)
    requires
        created.wf(),
        fence.serial() == created.next_pending(),
        fence.serial().0 <= later.last_completed().0,
    ensures
        forall|i: int|
            0 <= i < created.fences().len() ==> #[trigger] created.fences()[i].1.0 <= later.last_completed().0,
        created.last_submitted().0 < later.last_completed().0,
{
    assert forall|i: int| 0 <= i < created.fences().len() implies #[trigger] created.fences()[i].1.0
        <= later.last_completed().0 by {
        assert(crate::device::serials_within(
            created.fences(),
            created.last_completed().0 as int,
            created.last_submitted().0 as int,
        ));
    }
}

} // verus!
