use pjsua_rust::version::{parse_version, MAX_TESTED_VERSION, MIN_VERSION};

#[test]
fn parse_version_2_15() {
    let (major, minor, patch) = parse_version(0x020F_0000);
    assert_eq!((major, minor, patch), (2, 15, 0));
}

#[test]
fn parse_version_2_13() {
    let (major, minor, patch) = parse_version(0x020D_0000);
    assert_eq!((major, minor, patch), (2, 13, 0));
}

#[test]
fn min_max_ordering() {
    assert!(MIN_VERSION <= MAX_TESTED_VERSION);
    let (min_major, min_minor, _) = parse_version(MIN_VERSION);
    let (max_major, max_minor, _) = parse_version(MAX_TESTED_VERSION);
    assert_eq!(min_major, max_major);
    assert!(min_minor < max_minor);
}

#[test]
fn parse_version_with_patch_and_low_byte() {
    assert_eq!(parse_version(0x0210_0305), (2, 16, 3));
    assert_eq!(parse_version(0xFFFF_FFFF), (255, 255, 255));
}
