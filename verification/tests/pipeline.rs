use sendtemp::broadcast::Broadcast;
use sendtemp::device::Session;
use sendtemp::error::SendTempError;
use sendtemp::sender::tick_report;
use sendtemp::sensor::{
    read_cpu_temperature, read_hwmon_temperature, read_thermal_zone_temperature, HwmonEntry,
    ThermalZoneEntry,
};
use sendtemp::{matches_target_device, PRODUCT_ID, VENDOR_ID};

fn hwmon(name: &[u8], temp: &[u8]) -> HwmonEntry {
    HwmonEntry { name: Some(name.to_vec()), temp1_input: Some(temp.to_vec()) }
}

fn zone(entry_name: &[u8], zone_type: &[u8], temp: &[u8]) -> ThermalZoneEntry {
    ThermalZoneEntry {
        entry_name: entry_name.to_vec(),
        zone_type: Some(zone_type.to_vec()),
        temp: Some(temp.to_vec()),
    }
}

#[test]
fn hwmon_coretemp_entry_yields_its_reading() {
    let entries = vec![hwmon(b"coretemp\n", b"45500\n")];
    let r = read_hwmon_temperature(&entries).unwrap();
    assert_eq!(r.millidegrees, 45500);
}

#[test]
fn hwmon_skips_entries_that_yield_nothing() {
    let entries = vec![
        hwmon(b"acpitz\n", b"70000\n"),
        hwmon(b"k10temp\n", b"not a number\n"),
        HwmonEntry { name: None, temp1_input: Some(b"1000\n".to_vec()) },
        hwmon(b"zenpower\n", b"61250\n"),
    ];
    let r = read_hwmon_temperature(&entries).unwrap();
    assert_eq!(r.millidegrees, 61250);
}

#[test]
fn hwmon_matching_entry_without_readable_temp_is_skipped() {
    let entries = vec![
        HwmonEntry { name: Some(b"coretemp\n".to_vec()), temp1_input: None },
        hwmon(b"cpu thermal\n", b"52000\n"),
    ];
    let r = read_hwmon_temperature(&entries).unwrap();
    assert_eq!(r.millidegrees, 52000);
}

#[test]
fn thermal_zone_x86_pkg_temp_yields_its_reading() {
    let entries = vec![zone(b"thermal_zone0", b"x86_pkg_temp\n", b"38000\n")];
    let r = read_thermal_zone_temperature(&entries).unwrap();
    assert_eq!(r.millidegrees, 38000);
}

#[test]
fn thermal_zone_needs_the_directory_prefix() {
    let entries = vec![
        zone(b"cooling_device0", b"cpu\n", b"40000\n"),
        zone(b"thermal_zone3", b"cpu-thermal\n", b"41500\n"),
    ];
    let r = read_thermal_zone_temperature(&entries).unwrap();
    assert_eq!(r.millidegrees, 41500);
}

#[test]
fn thermal_zone_of_other_type_is_skipped() {
    let entries = vec![zone(b"thermal_zone0", b"acpitz\n", b"40000\n")];
    assert_eq!(read_thermal_zone_temperature(&entries), Err(SendTempError::SensorUnavailable));
}

#[test]
fn chain_prefers_hwmon_over_thermal_zones() {
    let h = vec![hwmon(b"coretemp\n", b"45500\n")];
    let t = vec![zone(b"thermal_zone0", b"x86_pkg_temp\n", b"38000\n")];
    let r = read_cpu_temperature(&h, &t).unwrap();
    assert_eq!(r.millidegrees, 45500);
}

#[test]
fn chain_falls_back_to_thermal_zones() {
    let h = vec![hwmon(b"acpitz\n", b"70000\n")];
    let t = vec![zone(b"thermal_zone0", b"x86_pkg_temp\n", b"38000\n")];
    let r = read_cpu_temperature(&h, &t).unwrap();
    assert_eq!(r.millidegrees, 38000);
}

#[test]
fn chain_with_both_sources_empty_is_sensor_unavailable() {
    let h: Vec<HwmonEntry> = Vec::new();
    let t: Vec<ThermalZoneEntry> = Vec::new();
    assert_eq!(read_cpu_temperature(&h, &t), Err(SendTempError::SensorUnavailable));
}

#[test]
fn tick_builds_the_report_from_the_chain() {
    let h = vec![hwmon(b"coretemp\n", b"45500\n")];
    let t: Vec<ThermalZoneEntry> = Vec::new();
    let rep = tick_report(&h, &t).unwrap();
    assert_eq!(rep.bytes[0], 45);
    assert_eq!(rep.bytes[1], 5);
    assert_eq!(rep.bytes.len(), 24);
    assert!(rep.bytes[2..].iter().all(|&b| b == 0));
}

#[test]
fn tick_falls_back_to_thermal_zone_for_its_report() {
    let h: Vec<HwmonEntry> = Vec::new();
    let t = vec![zone(b"thermal_zone0", b"x86_pkg_temp\n", b"38000\n")];
    let rep = tick_report(&h, &t).unwrap();
    assert_eq!(rep.bytes[0], 38);
    assert_eq!(rep.bytes[1], 0);
    assert!(rep.bytes[2..].iter().all(|&b| b == 0));
}

#[test]
fn tick_without_sensor_skips_with_sensor_unavailable() {
    let h: Vec<HwmonEntry> = Vec::new();
    let t = vec![zone(b"thermal_zone0", b"gpu\n", b"38000\n")];
    match tick_report(&h, &t) {
        Err(SendTempError::SensorUnavailable) => {},
        other => panic!("unexpected tick outcome: {:?}", other.map(|r| r.bytes)),
    }
}

#[test]
fn target_device_is_matched_by_both_identifiers() {
    assert!(matches_target_device(VENDOR_ID, PRODUCT_ID));
    assert!(matches_target_device(0xaa88, 0x8666));
    assert!(!matches_target_device(0xaa88, 0x8667));
    assert!(!matches_target_device(0xaa89, 0x8666));
    assert!(!matches_target_device(0, 0));
}

#[test]
fn empty_discovery_is_no_device_found() {
    match Session::new(0) {
        Err(SendTempError::NoDeviceFound) => {},
        _ => panic!("an empty discovery pass must be NoDeviceFound"),
    }
}

#[test]
fn nonempty_discovery_builds_a_session() {
    let s = Session::new(3).unwrap();
    assert_eq!(s.device_count(), 3);
}

#[test]
fn broadcast_serves_every_device_in_session_order() {
    let s = Session::new(2).unwrap();
    let mut b = Broadcast::new(&s);
    assert_eq!(b.next_target(), Some(0));
    b.record_success();
    assert_eq!(b.next_target(), Some(1));
    b.record_success();
    assert_eq!(b.next_target(), None);
    assert_eq!(b.outcome(), Ok(()));
}

#[test]
fn broadcast_failure_aborts_the_rest_of_the_session() {
    let s = Session::new(3).unwrap();
    let mut b = Broadcast::new(&s);
    assert_eq!(b.next_target(), Some(0));
    b.record_success();
    assert_eq!(b.next_target(), Some(1));
    b.record_failure();
    // device 2 is never offered as a target
    assert_eq!(b.next_target(), None);
    assert_eq!(b.outcome(), Err(SendTempError::WriteFailed(1)));
}
