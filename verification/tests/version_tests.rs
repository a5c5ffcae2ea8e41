//! Kernel versions.

use kimojio::runtime::kernel_supported;
use kimojio::version::{
    kernel_version, kernel_version_from, parse_version, version_prefix, ParseVersionError,
};

#[test]
fn parse_version_test() {
    assert_eq!(parse_version("6.2").unwrap(), (6, 2));
    assert_eq!(parse_version("5.17").unwrap(), (5, 17));
    assert_eq!(parse_version("5.17GARBAGE").unwrap(), (5, 17));
    assert_eq!(parse_version("5.17.8").unwrap(), (5, 17));
    assert_eq!(parse_version("5.17.8GARBAGE").unwrap(), (5, 17));
    assert_eq!(parse_version("5.17 More").unwrap(), (5, 17));
    assert_eq!(parse_version("5.17.8 More").unwrap(), (5, 17));
    assert_eq!(parse_version("5.17.").unwrap(), (5, 17));
    assert_eq!(parse_version("5.17. ").unwrap(), (5, 17));
    assert_eq!(parse_version("5.17. more").unwrap(), (5, 17));

    fn failed(x: Result<(u32, u32), ParseVersionError>) -> bool {
        x.is_err()
    }

    assert!(failed(parse_version("5")));
    assert!(failed(parse_version("5.")));
    assert!(failed(parse_version("5.x")));
    assert!(failed(parse_version("y")));
    assert!(failed(parse_version("")));
    assert!(failed(parse_version("y.5")));
}

#[test]
fn parse_version_errors() {
    assert_eq!(parse_version("4294967295.0"), Ok((4294967295, 0)));
    assert_eq!(parse_version("4294967296.0"), Err(ParseVersionError::PosOverflow));
    assert_eq!(parse_version("99999999999999999999999.1"), Err(ParseVersionError::PosOverflow));
    assert_eq!(parse_version(".1"), Err(ParseVersionError::Empty));
    assert_eq!(parse_version("1..2"), Err(ParseVersionError::Empty));
    assert_eq!(parse_version("007.08"), Ok((7, 8)));
}

#[test]
fn version_prefix_stops_at_other_characters() {
    assert_eq!(version_prefix("5.15.0-rc1"), "5.15.0");
    assert_eq!(version_prefix("5.15"), "5.15");
    assert_eq!(version_prefix("é5.15"), "");
}

#[test]
fn unknown_releases_count_as_the_oldest_supported() {
    assert_eq!(kernel_version_from("6.1.0-17-amd64"), (6, 1));
    assert_eq!(kernel_version_from("unknown"), (5, 15));
}

#[test]
fn the_running_kernel_has_a_version() {
    let release = rustix::system::uname().release().to_string_lossy().into_owned();
    assert_eq!(kernel_version(), kernel_version_from(&release));
    assert!(!release.is_empty());
}

#[test]
fn kernel_support_starts_at_5_15() {
    assert!(kernel_supported((5, 15)));
    assert!(kernel_supported((6, 0)));
    assert!(!kernel_supported((5, 14)));
    assert!(!kernel_supported((4, 19)));
}
