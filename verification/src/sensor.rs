use vstd::prelude::*;
use crate::bytes::{
    contains_seq, starts_with_seq, spec_trim, spec_parse_i32, contains_bytes, starts_with_bytes,
    trim_ascii, parse_millidegrees,
};
use crate::error::SendTempError;
use crate::reading::Reading;

verus! {

/// The bytes of `"coretemp"`, one of the hwmon names of a CPU sensor.
pub open spec fn coretemp_bytes() -> Seq<u8> {
    seq![99u8, 111u8, 114u8, 101u8, 116u8, 101u8, 109u8, 112u8]
}

/// The bytes of `"k10temp"`, one of the hwmon names of a CPU sensor.
pub open spec fn k10temp_bytes() -> Seq<u8> {
    seq![107u8, 49u8, 48u8, 116u8, 101u8, 109u8, 112u8]
}

/// The bytes of `"zenpower"`, one of the hwmon names of a CPU sensor.
pub open spec fn zenpower_bytes() -> Seq<u8> {
    seq![122u8, 101u8, 110u8, 112u8, 111u8, 119u8, 101u8, 114u8]
}

/// The bytes of `"cpu"`, matched in hwmon names and thermal-zone types.
pub open spec fn cpu_bytes() -> Seq<u8> {
    seq![99u8, 112u8, 117u8]
}

/// The bytes of `"x86_pkg_temp"`, a thermal-zone type of the CPU package.
pub open spec fn x86_pkg_temp_bytes() -> Seq<u8> {
    seq![120u8, 56u8, 54u8, 95u8, 112u8, 107u8, 103u8, 95u8, 116u8, 101u8, 109u8, 112u8]
}

/// The bytes of `"thermal_zone"`, the prefix a zone's directory name must
/// carry.
pub open spec fn thermal_zone_bytes() -> Seq<u8> {
    seq![116u8, 104u8, 101u8, 114u8, 109u8, 97u8, 108u8, 95u8, 122u8, 111u8, 110u8, 101u8]
}

fn coretemp_needle() -> (r: Vec<u8>)
    ensures
        r@ == coretemp_bytes(),
{
    let mut v: Vec<u8> = Vec::new();
    v.push(99);
    v.push(111);
    v.push(114);
    v.push(101);
    v.push(116);
    v.push(101);
    v.push(109);
    v.push(112);
    proof {
        assert(v@ =~= coretemp_bytes());
    }
    v
}

fn k10temp_needle() -> (r: Vec<u8>)
    ensures
        r@ == k10temp_bytes(),
{
    let mut v: Vec<u8> = Vec::new();
    v.push(107);
    v.push(49);
    v.push(48);
    v.push(116);
    v.push(101);
    v.push(109);
    v.push(112);
    proof {
        assert(v@ =~= k10temp_bytes());
    }
    v
}

fn zenpower_needle() -> (r: Vec<u8>)
    ensures
        r@ == zenpower_bytes(),
{
    let mut v: Vec<u8> = Vec::new();
    v.push(122);
    v.push(101);
    v.push(110);
    v.push(112);
    v.push(111);
    v.push(119);
    v.push(101);
    v.push(114);
    proof {
        assert(v@ =~= zenpower_bytes());
    }
    v
}

fn cpu_needle() -> (r: Vec<u8>)
    ensures
        r@ == cpu_bytes(),
{
    let mut v: Vec<u8> = Vec::new();
    v.push(99);
    v.push(112);
    v.push(117);
    proof {
        assert(v@ =~= cpu_bytes());
    }
    v
}

fn x86_pkg_temp_needle() -> (r: Vec<u8>)
    ensures
        r@ == x86_pkg_temp_bytes(),
{
    let mut v: Vec<u8> = Vec::new();
    v.push(120);
    v.push(56);
    v.push(54);
    v.push(95);
    v.push(112);
    v.push(107);
    v.push(103);
    v.push(95);
    v.push(116);
    v.push(101);
    v.push(109);
    v.push(112);
    proof {
        assert(v@ =~= x86_pkg_temp_bytes());
    }
    v
}

fn thermal_zone_needle() -> (r: Vec<u8>)
    ensures
        r@ == thermal_zone_bytes(),
{
    let mut v: Vec<u8> = Vec::new();
    v.push(116);
    v.push(104);
    v.push(101);
    v.push(114);
    v.push(109);
    v.push(97);
    v.push(108);
    v.push(95);
    v.push(122);
    v.push(111);
    v.push(110);
    v.push(101);
    proof {
        assert(v@ =~= thermal_zone_bytes());
    }
    v
}

/// One directory entry of the hardware-monitor tree, as the raw contents
/// of the two files the fallback chain reads. `None` stands for a file
/// that was absent or unreadable; either way the entry yields nothing.
pub struct HwmonEntry {
    /// Contents of the entry's `name` file.
    pub name: Option<Vec<u8>>,
    /// Contents of the entry's `temp1_input` file.
    pub temp1_input: Option<Vec<u8>>,
}

/// One directory entry of the thermal-zone tree, as its own directory
/// name and the raw contents of the two files the fallback chain reads.
pub struct ThermalZoneEntry {
    /// The entry's directory name.
    pub entry_name: Vec<u8>,
    /// Contents of the zone's `type` file.
    pub zone_type: Option<Vec<u8>>,
    /// Contents of the zone's `temp` file.
    pub temp: Option<Vec<u8>>,
}

/// A trimmed hwmon name identifies a CPU sensor when it contains any of
/// the fixed case-sensitive substrings.
pub open spec fn hwmon_name_matches(name: Seq<u8>) -> bool {
    let t = spec_trim(name);
    ||| contains_seq(t, coretemp_bytes())
    ||| contains_seq(t, k10temp_bytes())
    ||| contains_seq(t, zenpower_bytes())
    ||| contains_seq(t, cpu_bytes())
}

/// A trimmed thermal-zone type identifies the CPU when it contains
/// `"cpu"` or `"x86_pkg_temp"`.
pub open spec fn thermal_type_matches(zone_type: Seq<u8>) -> bool {
    let t = spec_trim(zone_type);
    ||| contains_seq(t, cpu_bytes())
    ||| contains_seq(t, x86_pkg_temp_bytes())
}

/// What one hwmon entry yields: its millidegree value when its name file
/// was readable and identifies a CPU sensor and its temperature file
/// parses, and nothing on any failure along the way.
pub open spec fn hwmon_entry_value(e: HwmonEntry) -> Option<int> {
    match e.name {
        Option::None => Option::None,
        Option::Some(name) => if hwmon_name_matches(name@) {
            match e.temp1_input {
                Option::None => Option::None,
                Option::Some(t) => spec_parse_i32(t@),
            }
        } else {
            Option::None
        },
    }
}

/// What one thermal-zone entry yields, by the same rule over its
/// directory name, type file and temperature file.
pub open spec fn thermal_entry_value(e: ThermalZoneEntry) -> Option<int> {
    if starts_with_seq(e.entry_name@, thermal_zone_bytes()) {
        match e.zone_type {
            Option::None => Option::None,
            Option::Some(ty) => if thermal_type_matches(ty@) {
                match e.temp {
                    Option::None => Option::None,
                    Option::Some(t) => spec_parse_i32(t@),
                }
            } else {
                Option::None
            },
        }
    } else {
        Option::None
    }
}

/// The value of the first hwmon entry that yields one, in scan order.
pub open spec fn first_hwmon_value(entries: Seq<HwmonEntry>) -> Option<int>
    decreases entries.len(),
{
    if entries.len() == 0 {
        Option::None
    } else {
        match hwmon_entry_value(entries[0]) {
            Option::Some(v) => Option::Some(v),
            Option::None => first_hwmon_value(entries.drop_first()),
        }
    }
}

/// The value of the first thermal-zone entry that yields one, in scan
/// order.
pub open spec fn first_thermal_value(entries: Seq<ThermalZoneEntry>) -> Option<int>
    decreases entries.len(),
{
    if entries.len() == 0 {
        Option::None
    } else {
        match thermal_entry_value(entries[0]) {
            Option::Some(v) => Option::Some(v),
            Option::None => first_thermal_value(entries.drop_first()),
        }
    }
}

/// Entries that yield nothing do not change what a scan finds: the first
/// value of the whole list is the first value past them.
proof fn lemma_first_hwmon_skip(entries: Seq<HwmonEntry>, i: int)
    requires
        0 <= i <= entries.len(),
        forall|k: int| 0 <= k < i ==> hwmon_entry_value(entries[k]) is None,
    ensures
        first_hwmon_value(entries) == first_hwmon_value(
            entries.subrange(i, entries.len() as int),
        ),
    decreases i,
{
    if i == 0 {
        assert(entries.subrange(0, entries.len() as int) =~= entries);
    } else {
        let rest = entries.drop_first();
        assert(forall|k: int| 0 <= k < i - 1 ==> hwmon_entry_value(rest[k]) is None);
        lemma_first_hwmon_skip(rest, i - 1);
        assert(rest.subrange(i - 1, rest.len() as int) =~= entries.subrange(
            i,
            entries.len() as int,
        ));
    }
}

/// The thermal-zone counterpart of the skip lemma.
proof fn lemma_first_thermal_skip(entries: Seq<ThermalZoneEntry>, i: int)
    requires
        0 <= i <= entries.len(),
        forall|k: int| 0 <= k < i ==> thermal_entry_value(entries[k]) is None,
    ensures
        first_thermal_value(entries) == first_thermal_value(
            entries.subrange(i, entries.len() as int),
        ),
    decreases i,
{
    if i == 0 {
        assert(entries.subrange(0, entries.len() as int) =~= entries);
    } else {
        let rest = entries.drop_first();
        assert(forall|k: int| 0 <= k < i - 1 ==> thermal_entry_value(rest[k]) is None);
        lemma_first_thermal_skip(rest, i - 1);
        assert(rest.subrange(i - 1, rest.len() as int) =~= entries.subrange(
            i,
            entries.len() as int,
        ));
    }
}

/// Decides what one hwmon entry yields, exactly `hwmon_entry_value`.
fn hwmon_entry_millidegrees(e: &HwmonEntry) -> (r: Option<i32>)
    ensures
        match hwmon_entry_value(*e) {
            Option::Some(v) => r matches Some(x) && x as int == v,
            Option::None => r is None,
        },
{
    match &e.name {
        None => None,
        Some(name) => {
            let t = trim_ascii(name);
            let matched = contains_bytes(&t, &coretemp_needle()) || contains_bytes(
                &t,
                &k10temp_needle(),
            ) || contains_bytes(&t, &zenpower_needle()) || contains_bytes(&t, &cpu_needle());
            if matched {
                match &e.temp1_input {
                    None => None,
                    Some(contents) => parse_millidegrees(contents),
                }
            } else {
                None
            }
        },
    }
}

/// Decides what one thermal-zone entry yields, exactly
/// `thermal_entry_value`.
fn thermal_entry_millidegrees(e: &ThermalZoneEntry) -> (r: Option<i32>)
    ensures
        match thermal_entry_value(*e) {
            Option::Some(v) => r matches Some(x) && x as int == v,
            Option::None => r is None,
        },
{
    if !starts_with_bytes(&e.entry_name, &thermal_zone_needle()) {
        return None;
    }
    match &e.zone_type {
        None => None,
        Some(ty) => {
            let t = trim_ascii(ty);
            let matched = contains_bytes(&t, &cpu_needle()) || contains_bytes(
                &t,
                &x86_pkg_temp_needle(),
            );
            if matched {
                match &e.temp {
                    None => None,
                    Some(contents) => parse_millidegrees(contents),
                }
            } else {
                None
            }
        },
    }
}

/// Scans the hwmon entries in order and returns the first reading one of
/// them yields; `SensorUnavailable` when none does.
pub fn read_hwmon_temperature(entries: &Vec<HwmonEntry>) -> (r: Result<Reading, SendTempError>)
    ensures
        match first_hwmon_value(entries@) {
            Option::Some(v) => r matches Ok(rd) && rd.millidegrees as int == v,
            Option::None => r == Err::<Reading, SendTempError>(SendTempError::SensorUnavailable),
        },
{
    let n = entries.len();
    let mut i: usize = 0;
    while i < n
        invariant
            n == entries@.len(),
            i <= n,
            forall|k: int| 0 <= k < i ==> hwmon_entry_value(entries@[k]) is None,
        decreases n - i,
    {
        match hwmon_entry_millidegrees(&entries[i]) {
            Some(m) => {
                proof {
                    lemma_first_hwmon_skip(entries@, i as int);
                }
                return Ok(Reading { millidegrees: m });
            },
            None => {
                i += 1;
            },
        }
    }
    proof {
        lemma_first_hwmon_skip(entries@, n as int);
    }
    Err(SendTempError::SensorUnavailable)
}

/// Scans the thermal-zone entries in order and returns the first reading
/// one of them yields; `SensorUnavailable` when none does.
pub fn read_thermal_zone_temperature(entries: &Vec<ThermalZoneEntry>) -> (r: Result<
    Reading,
    SendTempError,
>)
    ensures
        match first_thermal_value(entries@) {
            Option::Some(v) => r matches Ok(rd) && rd.millidegrees as int == v,
            Option::None => r == Err::<Reading, SendTempError>(SendTempError::SensorUnavailable),
        },
{
    let n = entries.len();
    let mut i: usize = 0;
    while i < n
        invariant
            n == entries@.len(),
            i <= n,
            forall|k: int| 0 <= k < i ==> thermal_entry_value(entries@[k]) is None,
        decreases n - i,
    {
        match thermal_entry_millidegrees(&entries[i]) {
            Some(m) => {
                proof {
                    lemma_first_thermal_skip(entries@, i as int);
                }
                return Ok(Reading { millidegrees: m });
            },
            None => {
                i += 1;
            },
        }
    }
    proof {
        lemma_first_thermal_skip(entries@, n as int);
    }
    Err(SendTempError::SensorUnavailable)
}

/// What the whole fallback chain yields: the hwmon scan's value when it
/// has one, otherwise the thermal-zone scan's.
pub open spec fn spec_cpu_temperature(
    hwmon: Seq<HwmonEntry>,
    thermal: Seq<ThermalZoneEntry>,
) -> Option<int> {
    match first_hwmon_value(hwmon) {
        Option::Some(v) => Option::Some(v),
        Option::None => first_thermal_value(thermal),
    }
}

/// The ordered fallback chain over both sources, first success wins:
/// hwmon, then thermal zones, then `SensorUnavailable`.
pub fn read_cpu_temperature(
    hwmon: &Vec<HwmonEntry>,
    thermal: &Vec<ThermalZoneEntry>,
) -> (r: Result<Reading, SendTempError>)
    ensures
        match spec_cpu_temperature(hwmon@, thermal@) {
            Option::Some(v) => r matches Ok(rd) && rd.millidegrees as int == v,
            Option::None => r == Err::<Reading, SendTempError>(SendTempError::SensorUnavailable),
        },
{
    match read_hwmon_temperature(hwmon) {
        Ok(rd) => Ok(rd),
        Err(_) => read_thermal_zone_temperature(thermal),
    }
}

/// Priority law: when any hwmon entry yields a value, the chain returns
/// it and the thermal zones play no part — any two thermal lists give
/// the same outcome.
pub proof fn lemma_hwmon_priority(
    hwmon: Seq<HwmonEntry>,
    thermal_a: Seq<ThermalZoneEntry>,
    thermal_b: Seq<ThermalZoneEntry>,
)
    requires
        first_hwmon_value(hwmon) is Some,
    ensures
        spec_cpu_temperature(hwmon, thermal_a) == first_hwmon_value(hwmon),
        spec_cpu_temperature(hwmon, thermal_a) == spec_cpu_temperature(hwmon, thermal_b),
{
}

} // verus!
