use sendtemp::bytes::{contains_bytes, parse_millidegrees, starts_with_bytes, trim_ascii};
use sendtemp::reading::Reading;
use sendtemp::report::{Report, MAX_REPORT_MILLIDEGREES, REPORT_LEN};

#[test]
fn trim_removes_ascii_whitespace_at_both_ends() {
    assert_eq!(trim_ascii(&b"  coretemp\n".to_vec()), b"coretemp".to_vec());
    assert_eq!(trim_ascii(&b"\t 45500 \r\n".to_vec()), b"45500".to_vec());
    assert_eq!(trim_ascii(&b"inner space kept".to_vec()), b"inner space kept".to_vec());
    assert_eq!(trim_ascii(&b" \t\r\n".to_vec()), b"".to_vec());
    assert_eq!(trim_ascii(&b"".to_vec()), b"".to_vec());
}

#[test]
fn contains_finds_contiguous_runs_only() {
    assert!(contains_bytes(&b"coretemp".to_vec(), &b"coretemp".to_vec()));
    assert!(contains_bytes(&b"nct6775-coretemp-x".to_vec(), &b"coretemp".to_vec()));
    assert!(contains_bytes(&b"acpitz".to_vec(), &b"".to_vec()));
    assert!(!contains_bytes(&b"acpitz".to_vec(), &b"cpu".to_vec()));
    assert!(!contains_bytes(&b"core-temp".to_vec(), &b"coretemp".to_vec()));
    assert!(!contains_bytes(&b"cp".to_vec(), &b"cpu".to_vec()));
}

#[test]
fn starts_with_checks_the_front() {
    assert!(starts_with_bytes(&b"thermal_zone0".to_vec(), &b"thermal_zone".to_vec()));
    assert!(starts_with_bytes(&b"thermal_zone".to_vec(), &b"thermal_zone".to_vec()));
    assert!(!starts_with_bytes(&b"cooling_device0".to_vec(), &b"thermal_zone".to_vec()));
    assert!(!starts_with_bytes(&b"thermal".to_vec(), &b"thermal_zone".to_vec()));
    assert!(!starts_with_bytes(&b"xthermal_zone0".to_vec(), &b"thermal_zone".to_vec()));
}

#[test]
fn parse_reads_trimmed_signed_decimals() {
    assert_eq!(parse_millidegrees(&b"45500\n".to_vec()), Some(45500));
    assert_eq!(parse_millidegrees(&b"  -12000 \t".to_vec()), Some(-12000));
    assert_eq!(parse_millidegrees(&b"+250".to_vec()), Some(250));
    assert_eq!(parse_millidegrees(&b"0".to_vec()), Some(0));
    assert_eq!(parse_millidegrees(&b"007".to_vec()), Some(7));
}

#[test]
fn parse_rejects_malformed_input() {
    assert_eq!(parse_millidegrees(&b"".to_vec()), None);
    assert_eq!(parse_millidegrees(&b"  \n".to_vec()), None);
    assert_eq!(parse_millidegrees(&b"-".to_vec()), None);
    assert_eq!(parse_millidegrees(&b"+".to_vec()), None);
    assert_eq!(parse_millidegrees(&b"abc".to_vec()), None);
    assert_eq!(parse_millidegrees(&b"12a".to_vec()), None);
    assert_eq!(parse_millidegrees(&b"4 5".to_vec()), None);
    assert_eq!(parse_millidegrees(&b"--5".to_vec()), None);
}

#[test]
fn parse_enforces_the_i32_range() {
    assert_eq!(parse_millidegrees(&b"2147483647".to_vec()), Some(2147483647));
    assert_eq!(parse_millidegrees(&b"2147483648".to_vec()), None);
    assert_eq!(parse_millidegrees(&b"-2147483648".to_vec()), Some(-2147483648));
    assert_eq!(parse_millidegrees(&b"-2147483649".to_vec()), None);
    assert_eq!(parse_millidegrees(&b"99999999999999999999".to_vec()), None);
}

#[test]
fn report_layout_for_plain_readings() {
    let r = Report::encode(Reading::from_millidegrees(45500));
    assert_eq!(r.bytes.len(), REPORT_LEN);
    assert_eq!(r.bytes[0], 45);
    assert_eq!(r.bytes[1], 5);
    for i in 2..24 {
        assert_eq!(r.bytes[i], 0);
    }

    let r = Report::encode(Reading::from_millidegrees(38000));
    assert_eq!(r.bytes[0], 38);
    assert_eq!(r.bytes[1], 0);
}

#[test]
fn report_decimal_digit_rounds_half_up_and_wraps_at_ten() {
    assert_eq!(Report::encode(Reading::from_millidegrees(45549)).bytes[1], 5);
    assert_eq!(Report::encode(Reading::from_millidegrees(45550)).bytes[1], 6);
    // rounding 9.5 up gives ten, kept to one digit as zero
    let r = Report::encode(Reading::from_millidegrees(45950));
    assert_eq!(r.bytes[0], 45);
    assert_eq!(r.bytes[1], 0);
}

#[test]
fn report_clamps_out_of_range_readings() {
    let low = Report::encode(Reading::from_millidegrees(-5000));
    assert_eq!(low.bytes[0], 0);
    assert_eq!(low.bytes[1], 0);

    let top = Report::encode(Reading::from_millidegrees(MAX_REPORT_MILLIDEGREES));
    assert_eq!(top.bytes[0], 255);
    assert_eq!(top.bytes[1], 0);

    let high = Report::encode(Reading::from_millidegrees(i32::MAX));
    assert_eq!(high.bytes[0], 255);
    assert_eq!(high.bytes[1], 0);

    let nine = Report::encode(Reading::from_millidegrees(255949));
    assert_eq!(nine.bytes[0], 255);
    assert_eq!(nine.bytes[1], 9);
}

#[test]
fn encoding_the_same_reading_twice_is_byte_identical() {
    let a = Report::encode(Reading::from_millidegrees(45500));
    let b = Report::encode(Reading::from_millidegrees(45500));
    assert_eq!(a.bytes, b.bytes);
}
