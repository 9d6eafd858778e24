use phasm_av1::text::parse_unsigned;
use phasm_av1::version;
use semver::Version;

#[test]
fn version_components_agree_with_the_text() {
    let v1 = Version::new(version::major(), version::minor(), version::patch());
    let v2 = Version::parse(&version::short()).unwrap();
    assert_eq!(v1.major, v2.major);
    assert_eq!(v1, v2);
}

#[test]
fn version_components() {
    assert_eq!(version::major(), 0);
    assert_eq!(version::minor(), 1);
    assert_eq!(version::patch(), 0);
}

#[test]
fn version_texts() {
    assert_eq!(version::short(), "0.1.0");
    assert_eq!(version::hash(), "UNKNOWN");
    assert_eq!(version::long(), "0.1.0");
    assert_eq!(version::long(), version::short());
    assert_eq!(version::full(), "0.1.0 (UNKNOWN)");
}

#[test]
fn version_with_a_revision() {
    assert_eq!(version::with_hash("0.1.0", "g743d464"), "0.1.0 - g743d464");
    assert_eq!(version::with_hash("0.1.0", ""), "0.1.0");
    assert_eq!(
        version::with_description("0.1.0", "v0.1.0-1-g743d464"),
        "0.1.0 (v0.1.0-1-g743d464)"
    );
}

#[test]
fn version_with_a_recorded_revision() {
    let found = version::recorded_revision(Some("g743d464"));
    assert_eq!(found, "g743d464");
    assert_eq!(version::with_hash("0.1.0", &found), "0.1.0 - g743d464");
    let missing = version::recorded_revision(None);
    assert_eq!(missing, "");
    assert_eq!(version::shown_revision(true, Some("g743d464")), "g743d464");
    assert_eq!(version::shown_revision(true, None), "");
    assert_eq!(version::shown_revision(false, None), "UNKNOWN");
    assert_eq!(version::with_hash("0.1.0", &missing), "0.1.0");
}

#[test]
fn unsigned_numbers() {
    assert_eq!(parse_unsigned("18446744073709551615", u64::MAX), Some(u64::MAX));
    assert_eq!(parse_unsigned("18446744073709551616", u64::MAX), None);
    assert_eq!(parse_unsigned("99999999999999999999999", u64::MAX), None);
    assert_eq!(parse_unsigned("+42", 42), Some(42));
    assert_eq!(parse_unsigned("43", 42), None);
    assert_eq!(parse_unsigned("5", 3), None);
    assert_eq!(parse_unsigned("0", 0), Some(0));
    assert_eq!(parse_unsigned("000", 0), Some(0));
    assert_eq!(parse_unsigned("", 9), None);
    assert_eq!(parse_unsigned("+", 9), None);
    assert_eq!(parse_unsigned("1\u{661}", 99), None);
    for text in ["7", "0012", "+3", "-3", "1_0", "1e1", "\u{e9}", "300"] {
        assert_eq!(parse_unsigned(text, u64::MAX), text.parse::<u64>().ok());
    }
}
