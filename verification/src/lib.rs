pub mod broadcast;
pub mod bytes;
pub mod device;
pub mod error;
pub mod reading;
pub mod report;
pub mod sender;
pub mod sensor;

use vstd::prelude::*;

verus! {

/// USB vendor identifier of the display device this library targets.
pub const VENDOR_ID: u16 = 0xaa88;

/// USB product identifier of the display device this library targets.
pub const PRODUCT_ID: u16 = 0x8666;

/// Milliseconds between two ticks of the sender loop.
pub const UPDATE_INTERVAL_MS: u64 = 1000;

/// A HID device qualifies for the session exactly when both of its
/// identifiers equal the fixed target constants.
pub fn matches_target_device(vendor_id: u16, product_id: u16) -> (r: bool)
    ensures
        r == (vendor_id == VENDOR_ID && product_id == PRODUCT_ID),
{
    vendor_id == VENDOR_ID && product_id == PRODUCT_ID
}

} // verus!
