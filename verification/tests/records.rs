use taus::crud::{find_mapping, find_target_by_id, find_target_by_name, first_mapping, note_mapping};
use taus::models::{Error, NewTarget, SemVer, Target, TargetVersionMapping, ValidRegex, Version};

fn sv(s: &str) -> SemVer {
    SemVer::from_str(s).unwrap()
}

fn target(id: i32, name: &str, latest: Option<&str>) -> Target {
    Target {
        id,
        target: name.to_string(),
        regex: ValidRegex::build(format!("{}.*", name)),
        latest: latest.map(sv),
    }
}

fn mapping(target_id: i32, current: &str, update: Version, url: &str) -> TargetVersionMapping {
    TargetVersionMapping {
        target_id,
        current_version: sv(current),
        update_version: update,
        download_url: url.to_string(),
    }
}

#[test]
fn valid_regex_accepts_and_refuses() {
    let r = ValidRegex::parse("app-.*\\.tar\\.gz".to_string()).unwrap();
    assert_eq!(r.as_string(), "app-.*\\.tar\\.gz");
    assert_eq!(r.into_string(), "app-.*\\.tar\\.gz");
    assert!(ValidRegex::parse("app-(".to_string()).is_err());
}

#[test]
fn valid_regex_build_keeps_text() {
    let r = ValidRegex::build("((".to_string());
    assert_eq!(r.as_string(), "((");
}

#[test]
fn new_target_and_error_keep_fields() {
    let t = NewTarget::new("linux".to_string(), "linux.*".to_string());
    assert_eq!(t.target(), "linux");
    assert_eq!(t.regex(), "linux.*");
    let e = Error::new("boom".to_string());
    assert_eq!(e.msg(), "boom");
}

#[test]
fn first_mapping_takes_first_row() {
    assert!(first_mapping(vec![]).is_none());
    let rows = vec![
        mapping(1, "1.0.0", Version::Latest, "a"),
        mapping(1, "1.0.0", Version::Latest, "b"),
    ];
    assert_eq!(first_mapping(rows).unwrap().download_url, "a");
}

#[test]
fn lookups_return_first_match() {
    let targets = vec![target(1, "linux", None), target(2, "mac", None), target(3, "mac", None)];
    assert_eq!(find_target_by_name(&targets, "mac"), Some(1));
    assert_eq!(find_target_by_name(&targets, "windows"), None);
    assert_eq!(find_target_by_id(&targets, 3), Some(2));
    assert_eq!(find_target_by_id(&targets, 9), None);
    let mappings = vec![
        mapping(1, "1.0.0", Version::Latest, "a"),
        mapping(2, "1.0.0", Version::Latest, "b"),
        mapping(2, "1.1.0", Version::Latest, "c"),
    ];
    assert_eq!(find_mapping(&mappings, 2, &sv("1.1.0")), Some(2));
    assert_eq!(find_mapping(&mappings, 2, &sv("1.0.0")), Some(1));
    assert_eq!(find_mapping(&mappings, 3, &sv("1.0.0")), None);
}

#[test]
fn note_mapping_sets_missing_latest() {
    let mut t = target(1, "linux", None);
    note_mapping(&mut t, &mapping(1, "0.3.0", Version::Latest, "u"));
    assert_eq!(t.latest, Some(sv("0.3.0")));
}

#[test]
fn note_mapping_moves_latest_up_only() {
    let mut t = target(1, "linux", Some("1.2.0"));
    note_mapping(&mut t, &mapping(1, "1.1.9", Version::Latest, "u"));
    assert_eq!(t.latest, Some(sv("1.2.0")));
    note_mapping(&mut t, &mapping(1, "1.3.0-rc.1", Version::Latest, "u"));
    assert_eq!(t.latest, Some(sv("1.3.0-rc.1")));
    note_mapping(&mut t, &mapping(1, "1.3.0", Version::Latest, "u"));
    assert_eq!(t.latest, Some(sv("1.3.0")));
    assert_eq!(t.id, 1);
    assert_eq!(t.target, "linux");
}

#[test]
fn note_mapping_keeps_latest_at_maximum() {
    let mut t = target(1, "linux", None);
    for v in ["1.0.0", "3.0.0", "2.0.0", "3.0.0-rc.1", "2.9.9+build"] {
        note_mapping(&mut t, &mapping(1, v, Version::Latest, "u"));
    }
    assert_eq!(t.latest, Some(sv("3.0.0")));
}

#[test]
fn valid_regex_error_is_the_compilers_message() {
    let expected = regex::Regex::new("app-(").unwrap_err().to_string();
    assert_eq!(ValidRegex::parse("app-(".to_string()).unwrap_err(), expected);
}
