use sysinfo::to_cpath;
use sysinfo::to_u64;

#[test]
fn decodes_digit_bytes() {
    assert_eq!(to_u64(b"12345"), 12345);
}

#[test]
fn decodes_zero() {
    assert_eq!(to_u64(b"0"), 0);
}

#[test]
fn decodes_leading_zeros() {
    assert_eq!(to_u64(b"007"), 7);
}

#[test]
fn decodes_largest_value() {
    assert_eq!(to_u64(b"18446744073709551615"), u64::MAX);
}

#[test]
fn decodes_empty_as_zero() {
    assert_eq!(to_u64(b""), 0);
}

#[test]
fn cpath_appends_a_single_nul() {
    let r = to_cpath(b"/tmp/x");
    assert_eq!(r, b"/tmp/x\0");
    assert_eq!(r.len(), b"/tmp/x".len() + 1);
}

#[test]
fn cpath_keeps_bytes_unchanged() {
    let r = to_cpath(&[0xff, 0x2f, 0x80]);
    assert_eq!(r, vec![0xff, 0x2f, 0x80, 0x00]);
}
