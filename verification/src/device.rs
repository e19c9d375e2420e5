use vstd::prelude::*;
use crate::error::SendTempError;

verus! {

/// One discovery pass's outcome: the number of device handles that were
/// opened, held for the lifetime of one sender-loop run. The handles
/// themselves live with the I/O layer; the session records how many
/// there are and gives each the index the broadcast order uses.
///
/// A session can only be built non-empty, so holding a `Session` is
/// itself the proof that discovery found at least one device.
pub struct Session {
    device_count: usize,
}

impl Session {
    /// The number of open device handles in this session.
    pub closed spec fn spec_device_count(self) -> usize {
        self.device_count
    }

    /// A session never holds zero devices.
    #[verifier::type_invariant]
    pub closed spec fn wf(self) -> bool {
        self.device_count >= 1
    }

    /// Closes a discovery pass that opened `device_count` handles: zero
    /// handles is `NoDeviceFound`, anything else a live session of
    /// exactly that size.
    pub fn new(device_count: usize) -> (r: Result<Session, SendTempError>)
        ensures
            device_count == 0 ==> r == Err::<Session, SendTempError>(SendTempError::NoDeviceFound),
            device_count >= 1 ==> (r matches Ok(s) && s.spec_device_count() == device_count),
    {
        if device_count == 0 {
            Err(SendTempError::NoDeviceFound)
        } else {
            Ok(Session { device_count })
        }
    }

    /// How many devices the session holds.
    pub fn device_count(&self) -> (r: usize)
        ensures
            r == self.spec_device_count(),
            r >= 1,
    {
        proof {
            use_type_invariant(self);
        }
        self.device_count
    }
}

} // verus!
