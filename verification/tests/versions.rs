use taus::models::{SemVer, Version};

#[test]
fn it_parses_speacial() {
    let res = Version::from_str("LATEST");
    assert_eq!(res.is_ok(), true);
    let unwrapped = res.unwrap();
    assert_eq!(unwrapped, Version::Latest)
}

#[test]
fn it_parses_semver() {
    let res = Version::from_str("1.2.3");
    assert_eq!(res.is_ok(), true);
    let unwrapped = res.unwrap();
    assert_eq!(
        unwrapped,
        Version::SemVer(SemVer::from_str("1.2.3").unwrap())
    )
}

#[test]
fn semver_parts_are_read() {
    let v = SemVer::from_str("1.22.333-alpha.1+build.5").unwrap();
    assert_eq!(v.major(), 1);
    assert_eq!(v.minor(), 22);
    assert_eq!(v.patch(), 333);
    assert_eq!(v.pre(), "alpha.1");
    assert_eq!(v.build_metadata(), "build.5");
}

#[test]
fn semver_text_is_display_form() {
    let v = SemVer::from_str("10.0.7-rc.2+sha.abc").unwrap();
    assert_eq!(v.text(), "10.0.7-rc.2+sha.abc");
    let w = SemVer::from_str("0.1.0").unwrap();
    assert_eq!(w.text(), "0.1.0");
}

#[test]
fn semver_refuses_bad_text() {
    assert!(SemVer::from_str("").is_err());
    assert!(SemVer::from_str("v1.2.3").is_err());
    assert!(SemVer::from_str("01.2.3").is_err());
    assert!(SemVer::from_str("1.2").is_err());
}

#[test]
fn semver_order_follows_semver() {
    let a = SemVer::from_str("1.2.3").unwrap();
    let b = SemVer::from_str("1.10.0").unwrap();
    let pre = SemVer::from_str("1.10.0-alpha").unwrap();
    assert!(a.precedes(&b));
    assert!(!b.precedes(&a));
    assert!(pre.precedes(&b));
    assert!(a.precedes(&pre));
    assert!(!a.precedes(&a.clone()));
}

#[test]
fn semver_equality_is_field_equality() {
    let a = SemVer::from_str("2.0.0+x").unwrap();
    let b = SemVer::from_str("2.0.0+y").unwrap();
    assert!(a != b);
    assert!(a == a.clone());
}

#[test]
fn version_refuses_other_words() {
    let res = Version::from_str("latest");
    assert_eq!(res, Err("Unable to parse 'latest' as Version".to_string()));
    let res = Version::from_str("");
    assert_eq!(res, Err("Unable to parse '' as Version".to_string()));
}

#[test]
fn version_prefers_semver() {
    let v = Version::from_str("3.4.5-LATEST").unwrap();
    assert_eq!(v, Version::SemVer(SemVer::from_str("3.4.5-LATEST").unwrap()));
}

#[test]
fn version_text_round_trips() {
    for raw in ["LATEST", "1.2.3", "0.0.1-beta.2+exp.sha.5114f85"] {
        let v = Version::from_str(raw).unwrap();
        assert_eq!(v.to_text(), raw);
        assert_eq!(Version::from_str(&v.to_text()).unwrap(), v);
    }
}

#[test]
fn version_debug_text_forms() {
    assert_eq!(Version::Latest.debug_text(), "VERSION<Latest>");
    let v = Version::from_str("1.0.0").unwrap();
    assert_eq!(v.debug_text(), "Version<1.0.0>");
}

#[test]
fn semver_error_is_the_parsers_message() {
    for raw in ["", "1.2", "1.2.3.4", "01.2.3"] {
        let expected = semver::Version::parse(raw).unwrap_err().to_string();
        assert_eq!(SemVer::from_str(raw).unwrap_err(), expected);
    }
}

#[test]
fn stored_versions_read_back() {
    let v = SemVer::from_str("4.5.6-rc.1+b7").unwrap();
    assert_eq!(SemVer::build(&v.text()).unwrap(), v);
    assert_eq!(SemVer::build("LATEST").unwrap_err(), semver::Version::parse("LATEST").unwrap_err().to_string());
    let latest = Version::Latest;
    assert_eq!(Version::build(&latest.to_text()).unwrap(), latest);
    assert_eq!(Version::build("nope").unwrap_err(), "Unable to parse 'nope' as Version");
}
