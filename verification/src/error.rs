use vstd::prelude::*;

verus! {

/// Error taxonomy of the temperature sender.
///
/// `SensorUnavailable` is recoverable tick to tick; `NoDeviceFound` and
/// `WriteFailed` tear the current session down and trigger rediscovery;
/// `DeviceOpenFailed` only excludes one device from a session; and
/// `HidSubsystemInitFailed` is fatal to the whole process.
#[derive(Clone, Copy, Debug, PartialEq, Eq, Structural)]
pub enum SendTempError {
    /// Neither the hwmon source nor the thermal-zone source yielded a
    /// reading this tick.
    SensorUnavailable,
    /// Discovery opened zero matching devices.
    NoDeviceFound,
    /// One device could not be opened; it is skipped, not fatal.
    DeviceOpenFailed,
    /// Writing the report to the device at the held session index failed.
    WriteFailed(usize),
    /// The HID access layer itself could not initialize.
    HidSubsystemInitFailed,
}

} // verus!
