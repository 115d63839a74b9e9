use taus::github::{
    discovery_source, parse_github_tag, plan_discovery, releases_url, AssetOutcome, GithubAsset,
    GithubRelease, TargetMatcher,
};
use taus::models::{Config, SemVer, Target, TargetVersionMapping, ValidRegex, Version};

fn sv(s: &str) -> SemVer {
    SemVer::from_str(s).unwrap()
}

fn target(id: i32, name: &str, regex: &str) -> Target {
    Target {
        id,
        target: name.to_string(),
        regex: ValidRegex::build(regex.to_string()),
        latest: None,
    }
}

fn config(user: Option<&str>, repo: Option<&str>) -> Config {
    Config {
        id: 1,
        fill_version: Version::Latest,
        asset_regex: ValidRegex::build(".*".to_string()),
        github_user: user.map(|s| s.to_string()),
        github_repo: repo.map(|s| s.to_string()),
    }
}

fn asset(name: &str) -> GithubAsset {
    GithubAsset { browser_download_url: format!("https://dl/{}", name), name: name.to_string() }
}

fn release(tag: &str, assets: Vec<GithubAsset>) -> GithubRelease {
    GithubRelease {
        url: format!("https://api/{}", tag),
        tag_name: parse_github_tag(tag).unwrap(),
        draft: false,
        body: String::new(),
        assets,
    }
}

fn matcher() -> TargetMatcher {
    TargetMatcher::new(vec![
        target(10, "linux", "linux"),
        target(20, "mac", "darwin|mac"),
        target(30, "universal", "universal"),
    ])
    .unwrap()
}

#[test]
fn github_tag_needs_leading_v() {
    assert_eq!(parse_github_tag("v1.4.0").unwrap(), sv("1.4.0"));
    assert_eq!(
        parse_github_tag("1.4.0").unwrap_err(),
        "GithubSemVer expected version to start with v"
    );
    assert_eq!(parse_github_tag("").unwrap_err(), "GithubSemVer expected version to start with v");
    assert!(parse_github_tag("vnext").is_err());
}

#[test]
fn github_tag_round_trips_version_text() {
    let v = sv("2.3.4-beta.1");
    let tag = format!("v{}", v.text());
    assert_eq!(parse_github_tag(&tag).unwrap(), v);
}

#[test]
fn discovery_needs_user_and_repo() {
    assert_eq!(
        discovery_source(&config(Some("me"), Some("app"))),
        Some(("me".to_string(), "app".to_string()))
    );
    assert_eq!(discovery_source(&config(Some("me"), None)), None);
    assert_eq!(discovery_source(&config(None, Some("app"))), None);
}

#[test]
fn releases_url_names_the_repository() {
    assert_eq!(releases_url("gabcoh", "taus"), "https://api.github.com/repos/gabcoh/taus/releases");
}

#[test]
fn matcher_refuses_bad_patterns() {
    let res = TargetMatcher::new(vec![target(1, "a", "a("), target(2, "b", "b")]);
    assert_eq!(res.err(), Some("Failed to create RegexSet".to_string()));
}

#[test]
fn matcher_reports_matching_targets_in_order() {
    let m = matcher();
    assert_eq!(m.len(), 3);
    assert_eq!(m.matching_targets("app-linux.AppImage"), vec![0]);
    assert_eq!(m.matching_targets("app-universal-mac.dmg"), vec![1, 2]);
    assert!(m.matching_targets("app.msi").is_empty());
    assert_eq!(m.target_at(1).id, 20);
}

#[test]
fn plan_decides_each_asset() {
    let m = matcher();
    let releases = vec![
        release("v1.0.0", vec![asset("app-linux.AppImage"), asset("app.msi")]),
        release("v1.1.0", vec![asset("app-universal-mac.dmg"), asset("app-darwin.tar.gz")]),
    ];
    let existing = vec![TargetVersionMapping {
        target_id: 10,
        current_version: sv("1.0.0"),
        update_version: Version::Latest,
        download_url: "old".to_string(),
    }];
    let plan = plan_discovery(&config(Some("me"), Some("app")), &m, &releases, &existing);
    assert_eq!(plan.len(), 4);
    assert!(matches!(plan[0], AssetOutcome::AlreadyMapped));
    assert!(matches!(plan[1], AssetOutcome::NoMatch));
    assert!(matches!(plan[2], AssetOutcome::MultipleMatches));
    match &plan[3] {
        AssetOutcome::Create(mp) => {
            assert_eq!(mp.target_id, 20);
            assert_eq!(mp.current_version, sv("1.1.0"));
            assert_eq!(mp.update_version, Version::Latest);
            assert_eq!(mp.download_url, "https://dl/app-darwin.tar.gz");
        }
        other => panic!("unexpected {:?}", other),
    }
}

#[test]
fn plan_creates_a_key_once() {
    let m = matcher();
    let releases = vec![release(
        "v2.0.0",
        vec![asset("app-linux.AppImage"), asset("app-linux.deb")],
    )];
    let plan = plan_discovery(&config(None, None), &m, &releases, &vec![]);
    assert!(matches!(plan[0], AssetOutcome::Create(_)));
    assert!(matches!(plan[1], AssetOutcome::AlreadyMapped));
}

#[test]
fn plan_is_idempotent() {
    let m = matcher();
    let releases = vec![
        release("v1.0.0", vec![asset("app-linux.AppImage")]),
        release("v1.1.0", vec![asset("app-darwin.tar.gz"), asset("app-linux.AppImage")]),
    ];
    let cfg = config(Some("me"), Some("app"));
    let plan = plan_discovery(&cfg, &m, &releases, &vec![]);
    let created: Vec<TargetVersionMapping> = plan
        .into_iter()
        .filter_map(|o| match o {
            AssetOutcome::Create(mp) => Some(mp),
            _ => None,
        })
        .collect();
    assert_eq!(created.len(), 3);
    let again = plan_discovery(&cfg, &m, &releases, &created);
    assert!(again.iter().all(|o| !matches!(o, AssetOutcome::Create(_))));
}

#[test]
fn github_tag_error_is_the_parsers_message() {
    let expected = semver::Version::parse("next").unwrap_err().to_string();
    assert_eq!(parse_github_tag("vnext").unwrap_err(), expected);
}

#[test]
fn plan_is_idempotent_after_latest_moves() {
    let releases = vec![release("v1.0.0", vec![asset("app-linux.AppImage"), asset("app-darwin.dmg")])];
    let cfg = config(Some("me"), Some("app"));
    let plan = plan_discovery(&cfg, &matcher(), &releases, &vec![]);
    let created: Vec<TargetVersionMapping> = plan
        .into_iter()
        .filter_map(|o| match o {
            AssetOutcome::Create(mp) => Some(mp),
            _ => None,
        })
        .collect();
    let mut targets = vec![
        target(10, "linux", "linux"),
        target(20, "mac", "darwin|mac"),
        target(30, "universal", "universal"),
    ];
    for t in targets.iter_mut() {
        for mp in created.iter() {
            if mp.target_id == t.id {
                taus::crud::note_mapping(t, mp);
            }
        }
    }
    assert_eq!(targets[0].latest, Some(sv("1.0.0")));
    let moved = TargetMatcher::new(targets).unwrap();
    let again = plan_discovery(&cfg, &moved, &releases, &created);
    assert!(again.iter().all(|o| !matches!(o, AssetOutcome::Create(_))));
}

#[test]
fn plan_without_targets_creates_nothing() {
    let m = TargetMatcher::new(vec![]).unwrap();
    let releases = vec![release("v1.0.0", vec![asset("app-linux.AppImage")])];
    let plan = plan_discovery(&config(None, None), &m, &releases, &vec![]);
    assert_eq!(plan.len(), 1);
    assert!(matches!(plan[0], AssetOutcome::NoMatch));
}
