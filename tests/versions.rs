use mscoree_safe::version::{version_from_reply, version_from_wide, RuntimeVersion};

fn wide(s: &str) -> Vec<u16> {
    s.encode_utf16().collect()
}

#[test]
fn versions() {
    assert_eq!(RuntimeVersion::V2.to_string(), String::from("v2.0.50727"));
    assert_eq!(RuntimeVersion::V3.to_string(), String::from("v3.0"));
    assert_eq!(RuntimeVersion::V4.to_string(), String::from("v4.0.30319"));
}

#[test]
fn known_strings_parse_to_known_versions() {
    assert_eq!(RuntimeVersion::from_string(String::from("v2.0.50727")), RuntimeVersion::V2);
    assert_eq!(RuntimeVersion::from_string(String::from("v3.0")), RuntimeVersion::V3);
    assert_eq!(RuntimeVersion::from_string(String::from("v4.0.30319")), RuntimeVersion::V4);
}

#[test]
fn known_versions_round_trip() {
    for v in [RuntimeVersion::V2, RuntimeVersion::V3, RuntimeVersion::V4] {
        assert_eq!(RuntimeVersion::from_string(v.to_string()), v);
    }
}

#[test]
fn unknown_string_is_kept_verbatim() {
    let v = RuntimeVersion::from_string(String::from("v5.0"));
    assert_eq!(v, RuntimeVersion::Unknown(String::from("v5.0")));
    assert_eq!(v.to_string(), String::from("v5.0"));
    assert!(!v.is_known());
}

#[test]
fn near_miss_strings_are_unknown() {
    let v = RuntimeVersion::from_string(String::from("v4.0"));
    assert_eq!(v, RuntimeVersion::Unknown(String::from("v4.0")));
    let e = RuntimeVersion::from_string(String::new());
    assert_eq!(e, RuntimeVersion::Unknown(String::new()));
    assert_eq!(e.to_string(), String::new());
}

#[test]
fn from_trait_matches_from_string() {
    assert_eq!(RuntimeVersion::from(String::from("v4.0.30319")), RuntimeVersion::V4);
    assert_eq!(
        RuntimeVersion::from(String::from("v1.1.4322")),
        RuntimeVersion::Unknown(String::from("v1.1.4322"))
    );
}

#[test]
fn duplicate_is_equal() {
    let v = RuntimeVersion::Unknown(String::from("x"));
    assert_eq!(v.duplicate(), v);
    assert_eq!(RuntimeVersion::V3.duplicate(), RuntimeVersion::V3);
    assert_ne!(RuntimeVersion::V3, RuntimeVersion::V4);
    assert_ne!(RuntimeVersion::V4, RuntimeVersion::Unknown(String::from("v4.0.30319")));
}

#[test]
fn wide_reply_stops_at_nul() {
    let mut units = wide("v4.0.30319");
    units.push(0);
    assert_eq!(version_from_wide(&units), RuntimeVersion::V4);
    let mut junk = wide("v5.0");
    junk.push(0);
    junk.extend(wide("zz"));
    assert_eq!(version_from_wide(&junk), RuntimeVersion::Unknown(String::from("v5.0")));
}

#[test]
fn wide_reply_without_nul() {
    assert_eq!(version_from_wide(&wide("v2.0.50727")), RuntimeVersion::V2);
    assert_eq!(version_from_wide(&Vec::new()), RuntimeVersion::Unknown(String::new()));
}

#[test]
fn wide_reply_decodes_lossily() {
    let units: Vec<u16> = vec![0x76, 0xD800, 0x31];
    assert_eq!(
        version_from_wide(&units),
        RuntimeVersion::Unknown(String::from("v\u{FFFD}1"))
    );
}

#[test]
fn failed_reply_is_empty_unknown() {
    assert_eq!(version_from_reply(None), RuntimeVersion::Unknown(String::new()));
    let mut units = wide("v3.0");
    units.push(0);
    assert_eq!(version_from_reply(Some(units)), RuntimeVersion::V3);
}
