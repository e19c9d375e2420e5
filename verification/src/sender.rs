use vstd::prelude::*;
use crate::error::SendTempError;
use crate::report::{Report, spec_report_bytes};
use crate::sensor::{HwmonEntry, ThermalZoneEntry, spec_cpu_temperature, read_cpu_temperature};

verus! {

/// One tick of the sender loop, up to where I/O takes over: run the
/// fallback chain over the sensor data gathered this tick and, when it
/// yields a reading, encode the report to broadcast. `SensorUnavailable`
/// means the tick is skipped; it never stops the loop.
pub fn tick_report(
    hwmon: &Vec<HwmonEntry>,
    thermal: &Vec<ThermalZoneEntry>,
) -> (r: Result<Report, SendTempError>)
    ensures
        match spec_cpu_temperature(hwmon@, thermal@) {
            Option::Some(v) => r matches Ok(rep) && rep.bytes@ == spec_report_bytes(v),
            Option::None => r == Err::<Report, SendTempError>(SendTempError::SensorUnavailable),
        },
{
    match read_cpu_temperature(hwmon, thermal) {
        Ok(reading) => Ok(Report::encode(reading)),
        Err(e) => Err(e),
    }
}

} // verus!
