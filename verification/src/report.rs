use vstd::prelude::*;
use crate::reading::Reading;

verus! {

/// Number of bytes in one outbound report.
pub const REPORT_LEN: usize = 24;

/// Largest millidegree value the encoder accepts before clamping; the
/// report's integer byte tops out at 255.
pub const MAX_REPORT_MILLIDEGREES: i32 = 255999;

/// Millidegrees clamped to what the one-byte integer part can carry.
/// Negative readings clamp to zero and readings of 256 degrees or more
/// clamp to the largest representable value, an explicit choice in place
/// of the silent wraparound an unchecked narrowing cast would give.
pub open spec fn clamped_millidegrees(m: int) -> int {
    if m < 0 {
        0
    } else if m > 255999 {
        255999
    } else {
        m
    }
}

/// Byte 0 of the report: the whole-degree part of the clamped reading.
pub open spec fn report_integer_byte(m: int) -> int {
    clamped_millidegrees(m) / 1000
}

/// Byte 1 of the report: the first decimal digit of the clamped reading,
/// rounded to the nearest (half up), kept to one digit.
pub open spec fn report_decimal_byte(m: int) -> int {
    ((clamped_millidegrees(m) % 1000 + 50) / 100) % 10
}

/// The full 24-byte report for a reading of `m` millidegrees: integer
/// part, decimal digit, then zero-filled padding.
pub open spec fn spec_report_bytes(m: int) -> Seq<u8> {
    Seq::new(24, |i: int|
        if i == 0 {
            report_integer_byte(m) as u8
        } else if i == 1 {
            report_decimal_byte(m) as u8
        } else {
            0u8
        })
}

/// The fixed-size binary buffer written to a display device in one
/// transaction.
pub struct Report {
    pub bytes: Vec<u8>,
}

impl Report {
    /// Encodes a reading into the device's report format. The result is
    /// fully determined by the reading's millidegrees.
    pub fn encode(reading: Reading) -> (r: Report)
        ensures
            r.bytes@ == spec_report_bytes(reading.millidegrees as int),
    {
        let m: i32 = reading.millidegrees;
        let clamped: u32 = if m < 0 {
            0u32
        } else if m > MAX_REPORT_MILLIDEGREES {
            255999u32
        } else {
            m as u32
        };
        assert(clamped == clamped_millidegrees(m as int));
        let int_byte: u8 = (clamped / 1000) as u8;
        let frac: u32 = clamped % 1000;
        let dec_byte: u8 = (((frac + 50) / 100) % 10) as u8;
        assert(int_byte == report_integer_byte(m as int));
        assert(dec_byte == report_decimal_byte(m as int));
        let mut bytes: Vec<u8> = Vec::new();
        bytes.push(int_byte);
        bytes.push(dec_byte);
        let mut i: usize = 2;
        while i < REPORT_LEN
            invariant
                2 <= i <= 24,
                bytes@.len() == i,
                bytes@[0] == int_byte,
                bytes@[1] == dec_byte,
                forall|k: int| 2 <= k < i ==> bytes@[k] == 0u8,
            decreases 24 - i,
        {
            bytes.push(0u8);
            i += 1;
        }
        proof {
            assert(bytes@ =~= spec_report_bytes(m as int));
        }
        Report { bytes }
    }
}

/// Layout law: for readings below 256 degrees the report holds exactly
/// the whole-degree part in byte 0, the rounded first decimal digit
/// (kept to one digit) in byte 1, and zeroes everywhere else.
pub proof fn lemma_report_layout(m: int)
    requires
        0 <= m < 255000,
    ensures
        spec_report_bytes(m).len() == 24,
        spec_report_bytes(m)[0] == m / 1000,
        spec_report_bytes(m)[1] == ((m % 1000 + 50) / 100) % 10,
        forall|i: int| 2 <= i < 24 ==> spec_report_bytes(m)[i] == 0u8,
{
    assert(clamped_millidegrees(m) == m);
    assert(0 <= m / 1000 < 255) by (nonlinear_arith)
        requires 0 <= m < 255000;
    assert(0 <= ((m % 1000 + 50) / 100) % 10 < 10);
}

/// Determinism law: two readings that hold the same millidegrees encode
/// to byte-identical reports.
pub proof fn lemma_encode_deterministic(a: Reading, b: Reading)
    requires
        a.millidegrees == b.millidegrees,
    ensures
        spec_report_bytes(a.millidegrees as int) == spec_report_bytes(b.millidegrees as int),
{
}

} // verus!
