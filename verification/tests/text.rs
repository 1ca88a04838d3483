//! Rendering and normalization behavior.

use zeroconf::domain::normalize_domain;
use zeroconf::error::DiscoveryError;
use zeroconf::error::Stage;
use zeroconf::error::contains_nul;
use zeroconf::render::decimal_string;
use zeroconf::render::format_ipv4;
use zeroconf::render::signed_decimal_string;

#[test]
fn normalize_strips_trailing_dot() {
    assert_eq!(normalize_domain("local."), "local");
}

#[test]
fn normalize_keeps_dotless_domain() {
    assert_eq!(normalize_domain("local"), "local");
}

#[test]
fn normalize_strips_every_trailing_dot() {
    assert_eq!(normalize_domain("example.org.."), "example.org");
}

#[test]
fn normalize_keeps_interior_dots() {
    assert_eq!(normalize_domain("printer.local."), "printer.local");
}

#[test]
fn normalize_empty_stays_empty() {
    assert_eq!(normalize_domain(""), "");
}

#[test]
fn normalize_all_dots_becomes_empty() {
    assert_eq!(normalize_domain("..."), "");
}

#[test]
fn normalize_is_idempotent_on_examples() {
    for d in ["local.", "a..", "", "x.y.z...", "no-dot"] {
        let once = normalize_domain(d);
        let twice = normalize_domain(&once);
        assert_eq!(once, twice);
    }
}

#[test]
fn decimal_renders_zero() {
    assert_eq!(decimal_string(0), "0");
}

#[test]
fn decimal_renders_multi_digit() {
    assert_eq!(decimal_string(631), "631");
    assert_eq!(decimal_string(10), "10");
    assert_eq!(decimal_string(8080), "8080");
}

#[test]
fn decimal_renders_largest_value() {
    assert_eq!(decimal_string(u64::MAX), "18446744073709551615");
}

#[test]
fn signed_decimal_renders_negative() {
    assert_eq!(signed_decimal_string(-65537), "-65537");
    assert_eq!(signed_decimal_string(5), "5");
    assert_eq!(signed_decimal_string(i32::MIN), "-2147483648");
}

#[test]
fn ipv4_renders_dotted_decimal() {
    assert_eq!(format_ipv4(&[192, 168, 1, 50]), "192.168.1.50");
    assert_eq!(format_ipv4(&[0, 0, 0, 0]), "0.0.0.0");
    assert_eq!(format_ipv4(&[255, 255, 255, 255]), "255.255.255.255");
}

#[test]
fn browse_stage_error_message_embeds_code() {
    let e = DiscoveryError::StageError { stage: Stage::Browse, code: 5 };
    assert_eq!(e.message(), "browse_callback() reported error (code: 5)");
}

#[test]
fn resolve_stage_error_message_embeds_code() {
    let e = DiscoveryError::StageError { stage: Stage::Resolve, code: 5 };
    assert_eq!(e.message(), "error reported by resolve_callback: (code: 5)");
}

#[test]
fn address_stage_error_message_embeds_code() {
    let e = DiscoveryError::StageError { stage: Stage::GetAddressInfo, code: -65537 };
    assert_eq!(
        e.message(),
        "get_address_info_callback() reported error (code: -65537)"
    );
}

#[test]
fn register_stage_error_message_embeds_code() {
    let e = DiscoveryError::StageError { stage: Stage::Register, code: 7 };
    assert_eq!(e.message(), "register_callback() reported error (code: 7)");
}

#[test]
fn backend_unavailable_message_embeds_code() {
    let e = DiscoveryError::BackendUnavailable { code: -65539 };
    assert_eq!(e.message(), "failed to issue request (code: -65539)");
}

#[test]
fn invalid_service_type_message() {
    let e = DiscoveryError::InvalidServiceType;
    assert_eq!(e.message(), "string cannot be represented as a C string");
}

#[test]
fn nul_detection() {
    assert!(contains_nul("a\0b"));
    assert!(contains_nul("\0"));
    assert!(!contains_nul(""));
    assert!(!contains_nul("_http._tcp"));
}
