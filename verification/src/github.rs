//! Discovery of new releases on GitHub: reading a release's tag, choosing the
//! repository to watch, and deciding, asset by asset, which version mappings
//! a set of releases calls for.

use vstd::prelude::*;
use vstd::string::StrSliceExecFns;
use vstd::string::StringExecFns;
use crate::models::{Config, MappingView, SemVer, Target, TargetVersionMapping, Url};
use crate::regex_calls::{regex_set_accepts, regex_set_compiles, regex_set_match_indices, regex_set_matches};
use crate::semver_calls::{semver_error_text, semver_parse, SemVerParts};

verus! {

/// An asset attached to a GitHub release.
#[derive(Debug)]
pub struct GithubAsset {
    pub browser_download_url: Url,
    pub name: String,
}

impl Clone for GithubAsset {
    fn clone(&self) -> (r: Self)
        ensures
            r.browser_download_url@ == self.browser_download_url@,
            r.name@ == self.name@,
    {
        GithubAsset { browser_download_url: self.browser_download_url.clone(), name: self.name.clone() }
    }
}

/// A GitHub release, with the version its tag names.
#[derive(Debug)]
pub struct GithubRelease {
    pub url: Url,
    pub tag_name: SemVer,
    pub draft: bool,
    pub body: String,
    pub assets: Vec<GithubAsset>,
}

/// What a release tag names: the tag must be `v` followed by a semantic
/// version.
pub open spec fn github_tag_parse(tag: Seq<char>) -> Option<SemVerParts> {
    if tag.len() > 0 && tag[0] == 'v' {
        semver_parse(tag.drop_first())
    } else {
        None
    }
}

/// The message for a tag that does not begin with `v`.
pub open spec fn tag_without_v_text() -> Seq<char> {
    "GithubSemVer expected version to start with v"@
}

/// Reads the version a release tag names; a tag that does not begin with `v`
/// is refused with its own message, else the parser's message is passed on.
pub fn parse_github_tag(tag: &str) -> (res: Result<SemVer, String>)
    ensures
        match github_tag_parse(tag@) {
            Some(p) => res matches Ok(v) && v@ == p,
            None => res is Err,
        },
        (tag@.len() == 0 || tag@[0] != 'v') ==> (res matches Err(m) && m@ == tag_without_v_text()),
        (tag@.len() > 0 && tag@[0] == 'v' && res is Err) ==> (res matches Err(m) && m@
            == semver_error_text(tag@.drop_first())),
{
    let n = tag.unicode_len();
    if n == 0 || tag.get_char(0) != 'v' {
        return Err(String::from_str("GithubSemVer expected version to start with v"));
    }
    let rest = tag.substring_char(1, n);
    assert(rest@ =~= tag@.drop_first());
    SemVer::from_str(rest)
}

/// The repository to watch: the configured user and repository, when both
/// are set.
pub fn discovery_source(config: &Config) -> (res: Option<(String, String)>)
    ensures
        match (config.github_user, config.github_repo) {
            (Some(u), Some(r)) => res matches Some(p) && p.0@ == u@ && p.1@ == r@,
            _ => res is None,
        },
{
    match (&config.github_user, &config.github_repo) {
        (Some(u), Some(r)) => Some((u.clone(), r.clone())),
        _ => None,
    }
}

/// The GitHub API address that lists the releases of `user`'s `repo`.
pub open spec fn releases_url_text(user: Seq<char>, repo: Seq<char>) -> Seq<char> {
    "https://api.github.com/repos/"@ + user + "/"@ + repo + "/releases"@
}

/// The GitHub API address that lists the releases of `user`'s `repo`.
pub fn releases_url(user: &str, repo: &str) -> (s: String)
    ensures
        s@ == releases_url_text(user@, repo@),
{
    let mut s = String::from_str("https://api.github.com/repos/");
    s.append(user);
    s.append("/");
    s.append(repo);
    s.append("/releases");
    s
}

/// The regular expressions of the targets, in order.
pub open spec fn target_patterns(ts: Seq<Target>) -> Seq<Seq<char>> {
    ts.map_values(|t: Target| t.regex@)
}

/// The targets, with their regular expressions compiled together as one
/// `regex::RegexSet`, to tell which targets an asset name belongs to.
pub struct TargetMatcher {
    targets: Vec<Target>,
    patterns: Vec<String>,
}

impl TargetMatcher {
    #[verifier::type_invariant]
    closed spec fn patterns_compile(self) -> bool {
        &&& self.patterns@.map_values(|p: String| p@) == target_patterns(self.targets@)
        &&& regex_set_accepts(self.patterns@.map_values(|p: String| p@))
    }

    /// The targets, in order.
    pub closed spec fn targets(&self) -> Seq<Target> {
        self.targets@
    }

    /// Compiles the targets' regular expressions into one set; refused with
    /// `Failed to create RegexSet` when `regex::RegexSet::new` refuses them.
    pub fn new(targets: Vec<Target>) -> (res: Result<TargetMatcher, String>)
        ensures
            res is Ok <==> regex_set_accepts(target_patterns(targets@)),
            res matches Ok(m) ==> m.targets() == targets@,
            res matches Err(e) ==> e@ == "Failed to create RegexSet"@,
    {
        let mut patterns: Vec<String> = Vec::new();
        let mut i: usize = 0;
        while i < targets.len()
            invariant
                i <= targets@.len(),
                patterns@.map_values(|p: String| p@) =~= target_patterns(targets@.take(i as int)),
            decreases targets@.len() - i,
        {
            let ghost before = patterns@;
            patterns.push(targets[i].regex.as_string());
            assert(patterns@.map_values(|p: String| p@) =~= before.map_values(|p: String| p@).push(
                targets@[i as int].regex@,
            ));
            assert(targets@.take(i + 1) =~= targets@.take(i as int).push(targets@[i as int]));
            i = i + 1;
        }
        assert(targets@.take(targets@.len() as int) =~= targets@);
        if regex_set_compiles(&patterns) {
            Ok(TargetMatcher { targets, patterns })
        } else {
            Err(String::from_str("Failed to create RegexSet"))
        }
    }

    /// The number of targets.
    pub fn len(&self) -> (n: usize)
        ensures
            n == self.targets().len(),
    {
        self.targets.len()
    }

    /// The target at position `i`.
    pub fn target_at(&self, i: usize) -> (t: &Target)
        requires
            i < self.targets().len(),
        ensures
            *t == self.targets()[i as int],
    {
        &self.targets[i]
    }

    /// The positions, in ascending order, of the targets whose regular
    /// expression matches the asset name.
    pub fn matching_targets(&self, name: &str) -> (res: Vec<usize>)
        ensures
            res@ == regex_set_matches(target_patterns(self.targets()), name@),
            forall|i: int| 0 <= i < res@.len() ==> #[trigger] res@[i] < self.targets().len(),
            forall|i: int, j: int| 0 <= i < j < res@.len() ==> #[trigger] res@[i] < #[trigger] res@[j],
    {
        proof {
            use_type_invariant(self);
            assert(self.patterns@.map_values(|p: String| p@).len() == self.targets@.len());
        }
        regex_set_match_indices(&self.patterns, name)
    }
}

/// A release asset as discovery sees it: the release's version, the asset's
/// download URL and the asset's name.
pub type AssetItem = (SemVerParts, Seq<char>, Seq<char>);

/// What identifies a mapping: the target id and the current version.
pub type MappingKey = (i32, SemVerParts);

/// The assets of one release, in order.
pub open spec fn release_items(r: GithubRelease) -> Seq<AssetItem> {
    r.assets@.map_values(|a: GithubAsset| (r.tag_name@, a.browser_download_url@, a.name@))
}

/// The assets of all releases, release by release, in order.
pub open spec fn asset_items(rs: Seq<GithubRelease>) -> Seq<AssetItem>
    decreases rs.len(),
{
    if rs.len() == 0 {
        Seq::empty()
    } else {
        asset_items(rs.drop_last()) + release_items(rs.last())
    }
}

/// What discovery decides for one asset.
pub enum PlannedOutcome {
    /// No target's regular expression matches the asset's name.
    NoMatch,
    /// More than one target's regular expression matches it.
    MultipleMatches,
    /// One target matches, and a mapping for it and the release exists.
    AlreadyMapped,
    /// One target matches and no mapping exists: this mapping is created.
    Create(MappingView),
}

/// What discovery decides for one asset, with the mapping to create.
#[derive(Debug)]
pub enum AssetOutcome {
    NoMatch,
    MultipleMatches,
    AlreadyMapped,
    Create(TargetVersionMapping),
}

impl View for AssetOutcome {
    type V = PlannedOutcome;

    open spec fn view(&self) -> PlannedOutcome {
        match self {
            AssetOutcome::NoMatch => PlannedOutcome::NoMatch,
            AssetOutcome::MultipleMatches => PlannedOutcome::MultipleMatches,
            AssetOutcome::AlreadyMapped => PlannedOutcome::AlreadyMapped,
            AssetOutcome::Create(m) => PlannedOutcome::Create(m@),
        }
    }
}

/// The decision for one asset, given the keys of the mappings that exist:
/// when exactly one target matches the asset's name, a mapping from the
/// release's version to the configured fill version, downloading this asset,
/// unless that target already has a mapping for the release's version. A
/// reported position that is no target's matches no target (the set only
/// ever reports positions of its own patterns, one per target).
pub open spec fn asset_outcome(
    targets: Seq<Target>,
    fill: Option<SemVerParts>,
    known: Seq<MappingKey>,
    item: AssetItem,
) -> PlannedOutcome {
    let hits = regex_set_matches(target_patterns(targets), item.2);
    if hits.len() == 0 {
        PlannedOutcome::NoMatch
    } else if hits.len() > 1 {
        PlannedOutcome::MultipleMatches
    } else if hits[0] >= targets.len() {
        PlannedOutcome::NoMatch
    } else if known.contains((targets[hits[0] as int].id, item.0)) {
        PlannedOutcome::AlreadyMapped
    } else {
        PlannedOutcome::Create((targets[hits[0] as int].id, item.0, fill, item.1))
    }
}

/// The keys of the mappings a decision creates.
pub open spec fn outcome_keys(o: PlannedOutcome) -> Seq<MappingKey> {
    match o {
        PlannedOutcome::Create(m) => seq![(m.0, m.1)],
        _ => Seq::empty(),
    }
}

/// The decisions for the assets in order, each one seeing the mappings that
/// the earlier ones create.
pub open spec fn plan_from(
    targets: Seq<Target>,
    fill: Option<SemVerParts>,
    known: Seq<MappingKey>,
    items: Seq<AssetItem>,
) -> Seq<PlannedOutcome>
    decreases items.len(),
{
    if items.len() == 0 {
        Seq::empty()
    } else {
        let o = asset_outcome(targets, fill, known, items[0]);
        seq![o] + plan_from(targets, fill, known + outcome_keys(o), items.drop_first())
    }
}

/// The keys of stored mappings.
pub open spec fn mapping_keys(ms: Seq<TargetVersionMapping>) -> Seq<MappingKey> {
    ms.map_values(|m: TargetVersionMapping| (m.target_id, m.current_version@))
}

/// The keys held as pairs of target id and version.
pub open spec fn key_pairs(ks: Seq<(i32, SemVer)>) -> Seq<MappingKey> {
    ks.map_values(|k: (i32, SemVer)| (k.0, k.1@))
}

/// The assets held as triples of version, download URL and name.
pub open spec fn item_triples(items: Seq<(SemVer, String, String)>) -> Seq<AssetItem> {
    items.map_values(|t: (SemVer, String, String)| (t.0@, t.1@, t.2@))
}

/// The decisions, as their models.
pub open spec fn outcome_views(os: Seq<AssetOutcome>) -> Seq<PlannedOutcome> {
    os.map_values(|o: AssetOutcome| o@)
}

fn key_known(known: &Vec<(i32, SemVer)>, id: i32, version: &SemVer) -> (r: bool)
    ensures
        r == key_pairs(known@).contains((id, version@)),
{
    let mut i: usize = 0;
    while i < known.len()
        invariant
            i <= known@.len(),
            forall|j: int| 0 <= j < i ==> key_pairs(known@)[j] != (id, version@),
        decreases known@.len() - i,
    {
        if known[i].0 == id && known[i].1 == *version {
            assert(key_pairs(known@)[i as int] == (id, version@));
            return true;
        }
        i = i + 1;
    }
    false
}

/// Lists the assets of the releases, release by release.
fn release_assets(releases: &Vec<GithubRelease>) -> (items: Vec<(SemVer, String, String)>)
    ensures
        item_triples(items@) == asset_items(releases@),
{
    let mut items: Vec<(SemVer, String, String)> = Vec::new();
    let mut i: usize = 0;
    while i < releases.len()
        invariant
            i <= releases@.len(),
            item_triples(items@) == asset_items(releases@.take(i as int)),
        decreases releases@.len() - i,
    {
        let r = &releases[i];
        let ghost start = item_triples(items@);
        let mut j: usize = 0;
        while j < r.assets.len()
            invariant
                i < releases@.len(),
                j <= r.assets@.len(),
                r == releases@[i as int],
                item_triples(items@) =~= start + release_items(*r).take(j as int),
            decreases r.assets@.len() - j,
        {
            let a = &r.assets[j];
            let ghost before = items@;
            items.push((r.tag_name.clone(), a.browser_download_url.clone(), a.name.clone()));
            assert(item_triples(items@) =~= item_triples(before).push(release_items(*r)[j as int]));
            assert(release_items(*r).take(j + 1) =~= release_items(*r).take(j as int).push(
                release_items(*r)[j as int],
            ));
            j = j + 1;
        }
        assert(release_items(*r).take(r.assets@.len() as int) =~= release_items(*r));
        assert(releases@.take(i + 1).drop_last() =~= releases@.take(i as int));
        i = i + 1;
    }
    assert(releases@.take(releases@.len() as int) =~= releases@);
    items
}

/// The keys of the stored mappings, as pairs.
fn stored_keys(mappings: &Vec<TargetVersionMapping>) -> (keys: Vec<(i32, SemVer)>)
    ensures
        key_pairs(keys@) == mapping_keys(mappings@),
{
    let mut keys: Vec<(i32, SemVer)> = Vec::new();
    let mut i: usize = 0;
    while i < mappings.len()
        invariant
            i <= mappings@.len(),
            key_pairs(keys@) =~= mapping_keys(mappings@.take(i as int)),
        decreases mappings@.len() - i,
    {
        let ghost before = keys@;
        keys.push((mappings[i].target_id, mappings[i].current_version.clone()));
        assert(key_pairs(keys@) =~= key_pairs(before).push(
            (mappings@[i as int].target_id, mappings@[i as int].current_version@),
        ));
        assert(mappings@.take(i + 1) =~= mappings@.take(i as int).push(mappings@[i as int]));
        i = i + 1;
    }
    assert(mappings@.take(mappings@.len() as int) =~= mappings@);
    keys
}

/// Decides, for every asset of every release in order, whether a mapping is
/// to be created: when exactly one target's regular expression matches the
/// asset's name and no mapping exists yet for that target and the release's
/// version (among the stored ones and those decided before), a mapping from
/// that version to the configured fill version, downloading that asset.
pub fn plan_discovery(
    config: &Config,
    matcher: &TargetMatcher,
    releases: &Vec<GithubRelease>,
    mappings: &Vec<TargetVersionMapping>,
) -> (res: Vec<AssetOutcome>)
    ensures
        outcome_views(res@) == plan_from(
            matcher.targets(),
            config.fill_version@,
            mapping_keys(mappings@),
            asset_items(releases@),
        ),
{
    let items = release_assets(releases);
    let mut known = stored_keys(mappings);
    let ghost targets = matcher.targets();
    let ghost fill = config.fill_version@;
    let ghost all = item_triples(items@);
    let ghost known0 = key_pairs(known@);
    let mut out: Vec<AssetOutcome> = Vec::new();
    assert(all.skip(0) =~= all);
    assert(outcome_views(out@) + plan_from(targets, fill, key_pairs(known@), all.skip(0)) =~= plan_from(
        targets,
        fill,
        known0,
        all,
    ));
    let mut i: usize = 0;
    while i < items.len()
        invariant
            i <= items@.len(),
            all == item_triples(items@),
            targets == matcher.targets(),
            fill == config.fill_version@,
            outcome_views(out@) + plan_from(targets, fill, key_pairs(known@), all.skip(i as int))
                == plan_from(targets, fill, known0, all),
        decreases items@.len() - i,
    {
        let ghost known_before = key_pairs(known@);
        let ghost rest = all.skip(i as int);
        let item = &items[i];
        let hits = matcher.matching_targets(item.2.as_str());
        let o = if hits.len() == 0 {
            AssetOutcome::NoMatch
        } else if hits.len() > 1 {
            AssetOutcome::MultipleMatches
        } else {
            let t = matcher.target_at(hits[0]);
            if key_known(&known, t.id, &item.0) {
                AssetOutcome::AlreadyMapped
            } else {
                known.push((t.id, item.0.clone()));
                AssetOutcome::Create(
                    TargetVersionMapping {
                        target_id: t.id,
                        current_version: item.0.clone(),
                        update_version: config.fill_version.clone(),
                        download_url: item.1.clone(),
                    },
                )
            }
        };
        assert(rest[0] == all[i as int]);
        assert(o@ == asset_outcome(targets, fill, known_before, rest[0]));
        assert(key_pairs(known@) =~= known_before + outcome_keys(o@));
        assert(rest.drop_first() =~= all.skip(i + 1));
        out.push(o);
        assert(outcome_views(out@) =~= outcome_views(out@.drop_last()).push(o@));
        assert(outcome_views(out@) + plan_from(targets, fill, key_pairs(known@), all.skip(i + 1))
            =~= outcome_views(out@.drop_last()) + plan_from(targets, fill, known_before, rest));
        i = i + 1;
    }
    assert(all.skip(items@.len() as int) =~= Seq::<AssetItem>::empty());
    assert(outcome_views(out@) =~= outcome_views(out@) + plan_from(targets, fill, key_pairs(known@), all.skip(i as int)));
    out
}

} // verus!
