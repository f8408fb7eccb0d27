//! Copies of the forest for a reader outside the engine. A copy travels
//! through one staging buffer, which can be read by one party at a time: the
//! engine fills it after a tick unless a reader has it, and a reader takes it
//! only when no other reader has.

use vstd::prelude::*;

verus! {

/// Whether a copy was asked for, and whether the staging buffer is with a
/// reader.
#[derive(Clone, Copy, Debug, PartialEq, Eq, Structural)]
pub struct SnapshotLatch {
    /// A copy of the forest was asked for and has not been begun.
    pub requested: bool,
    /// The staging buffer is with a reader.
    pub in_flight: bool,
}

/// What to do with the staging buffer once a tick is encoded.
#[derive(Clone, Copy, Debug, PartialEq, Eq, Structural)]
pub struct SnapshotAction {
    /// Copy what the tick wrote into the staging buffer.
    pub copy_to_staging: bool,
    /// Hand the staging buffer to a reader, who publishes what it holds.
    pub begin_read: bool,
}

impl SnapshotLatch {
    /// What to do once a tick is encoded: fill the staging buffer unless a
    /// reader has it, and hand it to a reader if a copy was asked for and no
    /// reader has it.
    pub open spec fn spec_action(self) -> SnapshotAction {
        SnapshotAction {
            copy_to_staging: !self.in_flight,
            begin_read: self.requested && !self.in_flight,
        }
    }

    /// The latch after a tick has taken its action.
    pub open spec fn spec_after_tick(self) -> SnapshotLatch {
        if self.requested && !self.in_flight {
            SnapshotLatch { requested: false, in_flight: true }
        } else {
            self
        }
    }

    /// A latch with nothing asked for and the staging buffer free.
    pub fn new() -> (latch: SnapshotLatch)
        ensures
            latch == (SnapshotLatch { requested: false, in_flight: false }),
    {
        SnapshotLatch { requested: false, in_flight: false }
    }

    /// Asks for a copy of the forest as it stands after the next tick.
    /// Asking twice is asking once.
    pub fn request(&mut self)
        ensures
            *final(self) == (SnapshotLatch { requested: true, in_flight: old(self).in_flight }),
    {
        self.requested = true;
    }

    /// Decides what to do with the staging buffer after a tick, and takes
    /// note of a read that begins.
    pub fn tick_done(&mut self) -> (action: SnapshotAction)
        ensures
            action == old(self).spec_action(),
            *final(self) == old(self).spec_after_tick(),
    {
        let action = SnapshotAction {
            copy_to_staging: !self.in_flight,
            begin_read: self.requested && !self.in_flight,
        };
        if action.begin_read {
            self.requested = false;
            self.in_flight = true;
        }
        action
    }

    /// Takes note that the reader is done with the staging buffer, whether
    /// it could read it or not.
    pub fn read_done(&mut self)
        ensures
            *final(self) == (SnapshotLatch { requested: old(self).requested, in_flight: false }),
    {
        self.in_flight = false;
    }
}

/// While a reader has the staging buffer, no tick writes to it and no second
/// reader gets it.
pub proof fn lemma_one_reader(latch: SnapshotLatch)
    requires
        latch.in_flight,
    ensures
        !latch.spec_action().copy_to_staging,
        !latch.spec_action().begin_read,
        latch.spec_after_tick() == latch,
{
}

/// A read begins only together with a copy of the tick's result, so that a
/// reader never sees a buffer that no tick has filled.
pub proof fn lemma_read_follows_copy(latch: SnapshotLatch)
    ensures
        latch.spec_action().begin_read ==> latch.spec_action().copy_to_staging,
        latch.spec_action().begin_read ==> latch.spec_after_tick().in_flight,
{
}

} // verus!
