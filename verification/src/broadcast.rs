use vstd::prelude::*;
use crate::device::Session;
use crate::error::SendTempError;

verus! {

/// One broadcast of a report over a session, driven device by device in
/// session order. The I/O layer asks which device to write next, then
/// records whether the write succeeded; the first failure aborts the
/// rest of the broadcast, so no later device sees a partial tick.
pub struct Broadcast {
    total: usize,
    sent: usize,
    failed: Option<usize>,
}

impl Broadcast {
    /// The number of devices this broadcast serves.
    pub closed spec fn spec_total(self) -> usize {
        self.total
    }

    /// How many devices have been written so far, always a prefix of the
    /// session order.
    pub closed spec fn spec_sent(self) -> usize {
        self.sent
    }

    /// The index of the device whose write failed, if one did.
    pub closed spec fn spec_failed(self) -> Option<usize> {
        self.failed
    }

    /// A broadcast either is a clean prefix of the session, or stopped
    /// for good at the one device whose write failed.
    pub open spec fn wf(self) -> bool {
        match self.spec_failed() {
            Option::None => self.spec_sent() <= self.spec_total(),
            Option::Some(i) => i == self.spec_sent() && i < self.spec_total(),
        }
    }

    /// The next device, in session order, that should receive the
    /// report; none when the broadcast is complete or aborted.
    pub open spec fn spec_next_target(self) -> Option<usize> {
        if self.spec_failed() is Some || self.spec_sent() == self.spec_total() {
            Option::None
        } else {
            Option::Some(self.spec_sent())
        }
    }

    /// Starts a broadcast over every device of the session, none written
    /// yet.
    pub fn new(session: &Session) -> (b: Broadcast)
        ensures
            b.wf(),
            b.spec_total() == session.spec_device_count(),
            b.spec_total() >= 1,
            b.spec_sent() == 0,
            b.spec_failed() is None,
    {
        let total = session.device_count();
        Broadcast { total, sent: 0, failed: None }
    }

    /// Which device to write next, none when the broadcast is over.
    pub fn next_target(&self) -> (r: Option<usize>)
        ensures
            r == self.spec_next_target(),
    {
        if self.failed.is_some() || self.sent == self.total {
            None
        } else {
            Some(self.sent)
        }
    }

    /// Records that the pending write went through, moving on to the
    /// next device in session order.
    pub fn record_success(&mut self)
        requires
            old(self).wf(),
            old(self).spec_next_target() is Some,
        ensures
            final(self).wf(),
            final(self).spec_total() == old(self).spec_total(),
            final(self).spec_sent() == old(self).spec_sent() + 1,
            final(self).spec_failed() is None,
    {
        self.sent = self.sent + 1;
    }

    /// Records that the pending write failed, aborting the broadcast:
    /// the failing index is kept and no further target is ever offered.
    pub fn record_failure(&mut self)
        requires
            old(self).wf(),
            old(self).spec_next_target() is Some,
        ensures
            final(self).wf(),
            final(self).spec_total() == old(self).spec_total(),
            final(self).spec_sent() == old(self).spec_sent(),
            final(self).spec_failed() == Option::Some(old(self).spec_sent()),
            final(self).spec_next_target() is None,
    {
        self.failed = Some(self.sent);
    }

    /// The broadcast's verdict once no target is left: the whole session
    /// was served, or the write to the recorded device failed.
    pub fn outcome(&self) -> (r: Result<(), SendTempError>)
        requires
            self.wf(),
            self.spec_next_target() is None,
        ensures
            r == (match self.spec_failed() {
                Option::Some(i) => Err::<(), SendTempError>(SendTempError::WriteFailed(i)),
                Option::None => Ok::<(), SendTempError>(()),
            }),
            r is Ok ==> self.spec_sent() == self.spec_total(),
    {
        match self.failed {
            Some(i) => Err(SendTempError::WriteFailed(i)),
            None => Ok(()),
        }
    }
}

/// Abort law: a broadcast that recorded a failure at device `i` wrote to
/// exactly the devices before `i`, offers no further target, and its
/// outcome is the `WriteFailed` error for `i` — no later device of that
/// session receives the report in that tick.
pub proof fn lemma_failure_halts_broadcast(b: Broadcast)
    requires
        b.wf(),
        b.spec_failed() is Some,
    ensures
        b.spec_next_target() is None,
        b.spec_sent() == b.spec_failed()->0,
        b.spec_sent() < b.spec_total(),
{
}

} // verus!
