use taus::models::{SemVer, Target, TargetVersionMapping, ValidRegex, Version};
use taus::tauri::{tauri_produce_response, TauriError};

fn sv(s: &str) -> SemVer {
    SemVer::from_str(s).unwrap()
}

fn target(id: i32, name: &str, latest: Option<&str>) -> Target {
    Target {
        id,
        target: name.to_string(),
        regex: ValidRegex::build(format!("{}.*", name)),
        latest: latest.map(sv),
    }
}

fn mapping(target_id: i32, current: &str, update: Version, url: &str) -> TargetVersionMapping {
    TargetVersionMapping {
        target_id,
        current_version: sv(current),
        update_version: update,
        download_url: url.to_string(),
    }
}

fn store() -> (Vec<Target>, Vec<TargetVersionMapping>) {
    let targets = vec![target(1, "linux", Some("2.0.0")), target(2, "mac", None)];
    let mappings = vec![
        mapping(1, "1.0.0", Version::Latest, "https://x/linux-1.0.0"),
        mapping(1, "1.5.0", Version::SemVer(sv("1.6.0")), "https://x/linux-1.5.0"),
        mapping(1, "2.0.0", Version::Latest, "https://x/linux-2.0.0"),
        mapping(1, "1.6.0", Version::SemVer(sv("1.7.0")), "https://x/linux-1.6.0"),
        mapping(2, "0.1.0", Version::Latest, "https://x/mac-0.1.0"),
        mapping(2, "0.2.0", Version::SemVer(sv("0.2.0")), "https://x/mac-0.2.0"),
    ];
    (targets, mappings)
}

fn ask(name: &str, raw: &str) -> Result<Option<taus::tauri::UpdateAvailableResponse>, TauriError> {
    let (targets, mappings) = store();
    tauri_produce_response(&targets, &mappings, name.to_string(), raw.to_string())
}

#[test]
fn update_to_latest_is_offered() {
    let r = ask("linux", "1.0.0").unwrap().unwrap();
    assert_eq!(r.url, "https://x/linux-2.0.0");
    assert_eq!(r.version, sv("2.0.0"));
    assert!(r.notes.is_none() && r.pub_date.is_none() && r.signature.is_none());
}

#[test]
fn update_to_fixed_version_is_offered() {
    let r = ask("linux", "1.5.0").unwrap().unwrap();
    assert_eq!(r.url, "https://x/linux-1.6.0");
    assert_eq!(r.version, sv("1.6.0"));
}

#[test]
fn up_to_date_client_gets_nothing() {
    assert!(ask("linux", "2.0.0").unwrap().is_none());
    assert!(ask("mac", "0.2.0").unwrap().is_none());
}

#[test]
fn unknown_target_is_reported() {
    let e = ask("windows", "1.0.0").unwrap_err();
    assert!(matches!(e, TauriError::TargetNotFound));
    assert_eq!(e.message(), "Error: Record not found");
}

#[test]
fn bad_client_version_is_reported() {
    let e = ask("linux", "one").unwrap_err();
    assert!(matches!(e, TauriError::InvalidVersion(_)));
    assert!(e.message().starts_with("Error: "));
}

#[test]
fn missing_mapping_is_reported() {
    let e = ask("linux", "0.9.0").unwrap_err();
    assert!(matches!(e, TauriError::MappingNotFound));
    assert_eq!(e.message(), "Mapping not found");
}

#[test]
fn latest_not_set_is_reported() {
    let e = ask("mac", "0.1.0").unwrap_err();
    assert!(matches!(e, TauriError::LatestNotSet));
    assert_eq!(e.message(), "Latest not set for target");
}

#[test]
fn missing_update_mapping_is_reported() {
    let e = ask("linux", "1.6.0").unwrap_err();
    assert!(matches!(e, TauriError::UpdateMappingNotFound));
    assert_eq!(e.message(), "Update Mapping not found");
}

#[test]
fn bad_client_version_carries_parser_message() {
    let expected = semver::Version::parse("1.x").unwrap_err().to_string();
    match ask("linux", "1.x").unwrap_err() {
        TauriError::InvalidVersion(m) => assert_eq!(m, expected),
        other => panic!("unexpected {:?}", other),
    }
    assert_eq!(ask("linux", "1.x").unwrap_err().message(), format!("Error: {}", expected));
}
