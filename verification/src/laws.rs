//! Properties of the library that span several of its functions.

use vstd::prelude::*;
use crate::github::{
    asset_items, release_items, GithubRelease, asset_outcome, github_tag_parse, mapping_keys, outcome_keys, plan_from, target_patterns, AssetItem,
    MappingKey, PlannedOutcome,
};
use crate::regex_calls::regex_set_matches;
use crate::crud::{is_first_mapping_with_key, is_first_target_named, mapping_has_key};
use crate::models::{version_parse, version_text, Target, TargetVersionMapping};
use crate::semver_calls::{semver_canonical, semver_error_text, semver_parse, semver_text, SemVerParts};
use crate::tauri::{first_mapping_with_key, lemma_first_mapping, lemma_first_target, tauri_outcome, TauriOutcome};
use crate::text::{decimal_text, digit_char, is_ascii_digit, lemma_decimal_text_starts_with_digit};

verus! {

/// A version survives being written as text and read back:
/// `Version::from_str` of what `Version::to_text` writes is the same version
/// (`LATEST` reads back as `Latest`, and a semantic version's text as that
/// version).
pub proof fn law_version_text_round_trip(v: Option<SemVerParts>)
    requires
        v matches Some(p) ==> semver_canonical(p),
    ensures
        version_parse(version_text(v)) == Some(v),
{
    match v {
        None => {
            reveal_strlit("LATEST");
        },
        Some(p) => {
            lemma_decimal_text_starts_with_digit(p.0 as nat);
            assert(semver_text(p)[0] == decimal_text(p.0 as nat)[0]);
        },
    }
}

/// A release tag written as `v` and a version's text names that version.
pub proof fn law_github_tag_round_trip(p: SemVerParts)
    requires
        semver_canonical(p),
    ensures
        github_tag_parse(seq!['v'] + semver_text(p)) == Some(p),
{
    assert((seq!['v'] + semver_text(p)).drop_first() =~= semver_text(p));
}

/// The keys of the mappings that decisions create, in order.
pub open spec fn created_keys(os: Seq<PlannedOutcome>) -> Seq<MappingKey>
    decreases os.len(),
{
    if os.len() == 0 {
        Seq::empty()
    } else {
        outcome_keys(os[0]) + created_keys(os.drop_first())
    }
}

/// Whether no decision creates a mapping.
pub open spec fn creates_nothing(os: Seq<PlannedOutcome>) -> bool {
    forall|i: int| 0 <= i < os.len() ==> !(os[i] is Create)
}

/// Discovery creates each mapping at most once, and never one that exists:
/// the keys it creates are all different, and none is among the known keys.
pub proof fn law_discovery_creates_new_keys_once(
    targets: Seq<Target>,
    fill: Option<SemVerParts>,
    known: Seq<MappingKey>,
    items: Seq<AssetItem>,
)
    ensures
        created_keys(plan_from(targets, fill, known, items)).no_duplicates(),
        forall|k: MappingKey|
            created_keys(plan_from(targets, fill, known, items)).contains(k) ==> !known.contains(k),
    decreases items.len(),
{
    if items.len() > 0 {
        let o = asset_outcome(targets, fill, known, items[0]);
        let known2 = known + outcome_keys(o);
        let rest = plan_from(targets, fill, known2, items.drop_first());
        law_discovery_creates_new_keys_once(targets, fill, known2, items.drop_first());
        let plan = plan_from(targets, fill, known, items);
        assert(plan =~= seq![o] + rest);
        assert(plan.drop_first() =~= rest);
        let ck = created_keys(plan);
        assert(ck =~= outcome_keys(o) + created_keys(rest));
        assert forall|k: MappingKey| ck.contains(k) implies !known.contains(k) by {
            if created_keys(rest).contains(k) {
                assert(known2.contains(k) ==> false);
                if known.contains(k) {
                    let j = choose|j: int| 0 <= j < known.len() && known[j] == k;
                    assert(known2[j] == k);
                }
            } else {
                let j = choose|j: int| 0 <= j < ck.len() && ck[j] == k;
                assert(j < outcome_keys(o).len());
            }
        }
        if o is Create {
            let k0 = outcome_keys(o)[0];
            assert(known2[known.len() as int] == k0);
            assert(known2.contains(k0));
            if created_keys(rest).contains(k0) {
                assert(!known2.contains(k0));
            }
            assert(!created_keys(rest).contains(k0));
            assert forall|i: int, j: int|
                0 <= i < ck.len() && 0 <= j < ck.len() && i != j implies ck[i] != ck[j] by {
                if i == 0 && j > 0 {
                    assert(ck[j] == created_keys(rest)[j - 1]);
                } else if j == 0 && i > 0 {
                    assert(ck[i] == created_keys(rest)[i - 1]);
                } else if i > 0 && j > 0 {
                    assert(ck[i] == created_keys(rest)[i - 1]);
                    assert(ck[j] == created_keys(rest)[j - 1]);
                }
            }
        } else {
            assert(ck =~= created_keys(rest));
        }
    }
}

/// Whether two target lists match asset names alike: the same ids and
/// regular expressions, position by position (their latest versions may
/// differ).
pub open spec fn same_matching(ta: Seq<Target>, tb: Seq<Target>) -> bool {
    &&& ta.len() == tb.len()
    &&& forall|i: int| 0 <= i < ta.len() ==> ta[i].id == tb[i].id && ta[i].regex@ == tb[i].regex@
}

/// Discovery creates nothing once every mapping it would create exists: for
/// any known keys `known_b` that hold the keys `known_a` and every key that
/// discovery creates from `known_a` with targets `targets_a`, discovering the
/// same assets against `known_b`, with targets that match alike (whatever
/// their latest versions), creates no mapping.
pub proof fn law_discovery_creates_nothing_when_known(
    targets_a: Seq<Target>,
    targets_b: Seq<Target>,
    fill: Option<SemVerParts>,
    known_a: Seq<MappingKey>,
    known_b: Seq<MappingKey>,
    items: Seq<AssetItem>,
)
    requires
        same_matching(targets_a, targets_b),
        forall|k: MappingKey|
            known_a.contains(k) || created_keys(plan_from(targets_a, fill, known_a, items)).contains(k)
                ==> known_b.contains(k),
    ensures
        creates_nothing(plan_from(targets_b, fill, known_b, items)),
    decreases items.len(),
{
    if items.len() > 0 {
        assert(target_patterns(targets_a) =~= target_patterns(targets_b));
        let oa = asset_outcome(targets_a, fill, known_a, items[0]);
        let ob = asset_outcome(targets_b, fill, known_b, items[0]);
        let known_a2 = known_a + outcome_keys(oa);
        let rest_a = plan_from(targets_a, fill, known_a2, items.drop_first());
        let plan_a = plan_from(targets_a, fill, known_a, items);
        assert(plan_a =~= seq![oa] + rest_a);
        assert(plan_a.drop_first() =~= rest_a);
        let ck = created_keys(plan_a);
        assert(ck =~= outcome_keys(oa) + created_keys(rest_a));
        if oa is Create {
            assert(ck[0] == outcome_keys(oa)[0]);
            assert(ck.contains(outcome_keys(oa)[0]));
        }
        assert(!(ob is Create));
        assert(outcome_keys(ob) =~= Seq::<MappingKey>::empty());
        assert(known_b + outcome_keys(ob) =~= known_b);
        assert forall|k: MappingKey|
            known_a2.contains(k) || created_keys(rest_a).contains(k) implies known_b.contains(k) by {
            if known_a2.contains(k) {
                let j = choose|j: int| 0 <= j < known_a2.len() && known_a2[j] == k;
                if j < known_a.len() {
                    assert(known_a.contains(k));
                } else {
                    assert(ck[j - known_a.len()] == k);
                    assert(ck.contains(k));
                }
            } else {
                let j = choose|j: int| 0 <= j < created_keys(rest_a).len() && created_keys(rest_a)[j] == k;
                assert(ck[j + outcome_keys(oa).len()] == k);
                assert(ck.contains(k));
            }
        }
        law_discovery_creates_nothing_when_known(
            targets_a,
            targets_b,
            fill,
            known_a2,
            known_b,
            items.drop_first(),
        );
        let plan_b = plan_from(targets_b, fill, known_b, items);
        assert(plan_b =~= seq![ob] + plan_from(targets_b, fill, known_b, items.drop_first()));
        assert forall|i: int| 0 <= i < plan_b.len() implies !(plan_b[i] is Create) by {
            if i > 0 {
                assert(plan_b[i] == plan_from(targets_b, fill, known_b, items.drop_first())[i - 1]);
            }
        }
    }
}

/// Discovery is idempotent: once the mappings it decided to create exist,
/// discovering the same releases again creates nothing, also after the
/// targets' latest versions have moved (their ids and regular expressions
/// staying the same).
pub proof fn law_discovery_idempotent(
    targets: Seq<Target>,
    targets_after: Seq<Target>,
    fill: Option<SemVerParts>,
    known: Seq<MappingKey>,
    items: Seq<AssetItem>,
)
    requires
        same_matching(targets, targets_after),
    ensures
        creates_nothing(
            plan_from(
                targets_after,
                fill,
                known + created_keys(plan_from(targets, fill, known, items)),
                items,
            ),
        ),
{
    let ck = created_keys(plan_from(targets, fill, known, items));
    assert forall|k: MappingKey| known.contains(k) || ck.contains(k) implies (known + ck).contains(k) by {
        if known.contains(k) {
            let j = choose|j: int| 0 <= j < known.len() && known[j] == k;
            assert((known + ck)[j] == k);
        } else {
            let j = choose|j: int| 0 <= j < ck.len() && ck[j] == k;
            assert((known + ck)[known.len() + j] == k);
        }
    }
    law_discovery_creates_nothing_when_known(targets, targets_after, fill, known, known + ck, items);
}

/// Every mapping discovery creates belongs to the one target whose regular
/// expression matches the asset's name: it maps that target and the
/// release's version to the fill version, downloading that asset.
pub proof fn law_discovery_creates_for_the_matching_target(
    targets: Seq<Target>,
    fill: Option<SemVerParts>,
    known: Seq<MappingKey>,
    items: Seq<AssetItem>,
)
    ensures
        plan_from(targets, fill, known, items).len() == items.len(),
        forall|i: int|
            0 <= i < items.len() && (#[trigger] plan_from(targets, fill, known, items)[i]) is Create
                ==> exists|k: int|
                0 <= k < targets.len() && regex_set_matches(target_patterns(targets), items[i].2)
                    == seq![k as usize] && plan_from(targets, fill, known, items)[i]
                    == PlannedOutcome::Create((targets[k as int].id, items[i].0, fill, items[i].1)),
    decreases items.len(),
{
    if items.len() > 0 {
        let o = asset_outcome(targets, fill, known, items[0]);
        let known2 = known + outcome_keys(o);
        let rest = plan_from(targets, fill, known2, items.drop_first());
        law_discovery_creates_for_the_matching_target(targets, fill, known2, items.drop_first());
        let plan = plan_from(targets, fill, known, items);
        assert(plan =~= seq![o] + rest);
        assert forall|i: int| 0 <= i < items.len() && (#[trigger] plan[i]) is Create implies exists|k: int|
            0 <= k < targets.len() && regex_set_matches(target_patterns(targets), items[i].2)
                == seq![k as usize] && plan[i] == PlannedOutcome::Create(
                (targets[k as int].id, items[i].0, fill, items[i].1),
            ) by {
            if i == 0 {
                let hits = regex_set_matches(target_patterns(targets), items[0].2);
                let k = hits[0] as int;
                assert(hits =~= seq![k as usize]);
            } else {
                assert(plan[i] == rest[i - 1]);
                assert(items.drop_first()[i - 1] == items[i]);
            }
        }
    }
}

/// With no targets, discovery creates no mapping.
pub proof fn law_discovery_without_targets_creates_nothing(
    targets: Seq<Target>,
    fill: Option<SemVerParts>,
    known: Seq<MappingKey>,
    items: Seq<AssetItem>,
)
    requires
        targets.len() == 0,
    ensures
        creates_nothing(plan_from(targets, fill, known, items)),
{
    law_discovery_creates_for_the_matching_target(targets, fill, known, items);
    let plan = plan_from(targets, fill, known, items);
    assert forall|i: int| 0 <= i < plan.len() implies !(plan[i] is Create) by {
        if plan[i] is Create {
            let k = choose|k: int| 0 <= k < targets.len() && regex_set_matches(target_patterns(targets), items[i].2)
                == seq![k as usize] && plan[i] == PlannedOutcome::Create((targets[k as int].id, items[i].0, fill, items[i].1));
        }
    }
}

/// A semantic version stored as its text reads back as the same version
/// (`SemVer::build` of what `SemVer::text` writes).
pub proof fn law_semver_text_round_trip(p: SemVerParts)
    requires
        semver_canonical(p),
    ensures
        semver_parse(semver_text(p)) == Some(p),
{
}

/// An update is only ever offered for a version other than the one the
/// client runs, and it is the asset of a stored mapping for that version.
pub proof fn law_update_offered_is_another_version(
    targets: Seq<Target>,
    mappings: Seq<TargetVersionMapping>,
    name: Seq<char>,
    raw: Seq<char>,
)
    ensures
        tauri_outcome(targets, mappings, name, raw) matches TauriOutcome::Update(url, v) ==> {
            &&& semver_parse(raw) matches Some(c) && v != c
            &&& exists|i: int|
                0 <= i < mappings.len() && (#[trigger] mappings[i]).current_version@ == v
                    && mappings[i].download_url@ == url
        },
{
    if tauri_outcome(targets, mappings, name, raw) is Update {
        let ti = crate::tauri::first_target_named(targets, name)->Some_0;
        let cur = semver_parse(raw)->Some_0;
        let mi = first_mapping_with_key(mappings, targets[ti].id, cur)->Some_0;
        let uv = crate::tauri::update_target_version(
            mappings[mi].update_version@,
            crate::models::opt_semver_view(targets[ti].latest),
        )->Some_0;
        let ai = first_mapping_with_key(mappings, targets[ti].id, uv)->Some_0;
        assert(crate::crud::is_first_mapping_with_key(mappings, targets[ti].id, uv, ai));
    }
}

/// The answer to an update request, in terms of the stored rows: take the
/// first target with the asked name, the client's parsed version `cur`, the
/// first of that target's mappings for `cur`, the version `uv` it sends the
/// client to (its fixed version, or the target's latest), and the first of
/// that target's mappings for `uv`. The client is up to date exactly when
/// `uv` is `cur` in every part (pre-release and build included); otherwise it
/// is offered `uv`, downloaded from that mapping of its own target.
pub proof fn law_update_answer(
    targets: Seq<Target>,
    mappings: Seq<TargetVersionMapping>,
    name: Seq<char>,
    raw: Seq<char>,
    ti: int,
    cur: SemVerParts,
    mi: int,
    uv: SemVerParts,
    ai: int,
)
    requires
        0 <= ti < targets.len(),
        targets[ti].target@ == name,
        forall|j: int| 0 <= j < ti ==> (#[trigger] targets[j]).target@ != name,
        semver_parse(raw) == Some(cur),
        0 <= mi < mappings.len(),
        mappings[mi].target_id == targets[ti].id,
        mappings[mi].current_version@ == cur,
        forall|j: int|
            0 <= j < mi ==> !((#[trigger] mappings[j]).target_id == targets[ti].id
                && mappings[j].current_version@ == cur),
        mappings[mi].update_version@ == Some(uv) || (mappings[mi].update_version@ is None && (
        targets[ti].latest matches Some(l) && l@ == uv)),
        0 <= ai < mappings.len(),
        mappings[ai].target_id == targets[ti].id,
        mappings[ai].current_version@ == uv,
        forall|j: int|
            0 <= j < ai ==> !((#[trigger] mappings[j]).target_id == targets[ti].id
                && mappings[j].current_version@ == uv),
    ensures
        tauri_outcome(targets, mappings, name, raw) == (if uv == cur {
            TauriOutcome::UpToDate
        } else {
            TauriOutcome::Update(mappings[ai].download_url@, uv)
        }),
{
    lemma_first_target(targets, name, ti);
    lemma_first_mapping(mappings, targets[ti].id, cur, mi);
    lemma_first_mapping(mappings, targets[ti].id, uv, ai);
}

/// The decimal value of a string of ASCII digits, most significant first.
pub open spec fn digits_value(s: Seq<char>) -> int
    decreases s.len(),
{
    if s.len() == 0 {
        0
    } else {
        digits_value(s.drop_last()) * 10 + ((s.last() as int) - 48)
    }
}

/// The decimal text of a number is its numeral: ASCII digits whose decimal
/// value is the number, with no leading zero (unless the number is zero).
pub proof fn law_decimal_text_is_numeral(n: nat)
    ensures
        digits_value(decimal_text(n)) == n,
        forall|i: int| 0 <= i < decimal_text(n).len() ==> is_ascii_digit(#[trigger] decimal_text(n)[i]),
        n > 0 ==> decimal_text(n)[0] != '0',
        n == 0 ==> decimal_text(n) == seq!['0'],
    decreases n,
{
    if n < 10 {
        assert(decimal_text(n) =~= seq![digit_char(n)]);
        assert(seq![digit_char(n)].drop_last() =~= Seq::<char>::empty());
        assert((digit_char(n) as int) == n + 48);
        assert(seq![digit_char(n)].last() == digit_char(n));
        assert(digits_value(seq![digit_char(n)]) == digits_value(Seq::<char>::empty()) * 10 + ((
        digit_char(n) as int) - 48));
        if n == 0 {
            assert(digit_char(0) == '0');
        }
    } else {
        law_decimal_text_is_numeral(n / 10);
        let d = (n % 10) as nat;
        let s = decimal_text(n / 10);
        assert(decimal_text(n) == s.push(digit_char(d)));
        assert(s.push(digit_char(d)).drop_last() =~= s);
        assert((digit_char(d) as int) == d + 48);
        assert(s.push(digit_char(d)).last() == digit_char(d));
        assert(digits_value(s.push(digit_char(d))) == digits_value(s) * 10 + ((digit_char(d) as int)
            - 48));
        assert((n / 10) * 10 + (n % 10) == n);
        assert forall|i: int| 0 <= i < decimal_text(n).len() implies is_ascii_digit(
            #[trigger] decimal_text(n)[i],
        ) by {
            if i < s.len() {
                assert(decimal_text(n)[i] == s[i]);
            }
        }
        assert(decimal_text(n)[0] == s[0]);
    }
}

/// Whether the decision creates the mapping for this key.
pub open spec fn creates_key(o: PlannedOutcome, key: MappingKey) -> bool {
    o matches PlannedOutcome::Create(m) && m.0 == key.0 && m.1 == key.1
}

proof fn lemma_created_key_witness(os: Seq<PlannedOutcome>, key: MappingKey)
    requires
        created_keys(os).contains(key),
    ensures
        exists|j: int| 0 <= j < os.len() && creates_key(#[trigger] os[j], key),
    decreases os.len(),
{
    let ck = created_keys(os);
    assert(ck =~= outcome_keys(os[0]) + created_keys(os.drop_first()));
    let p = choose|p: int| 0 <= p < ck.len() && ck[p] == key;
    if p < outcome_keys(os[0]).len() {
        assert(os[0] is Create);
    } else {
        assert(created_keys(os.drop_first())[p - outcome_keys(os[0]).len()] == key);
        lemma_created_key_witness(os.drop_first(), key);
        let j = choose|j: int| 0 <= j < os.drop_first().len() && creates_key(#[trigger] os.drop_first()[j], key);
        assert(os[j + 1] == os.drop_first()[j]);
    }
}

/// Each decision is the decision for its asset given the known keys and the
/// keys that the decisions before it create.
proof fn lemma_plan_at(
    targets: Seq<Target>,
    fill: Option<SemVerParts>,
    known: Seq<MappingKey>,
    items: Seq<AssetItem>,
    i: int,
)
    requires
        0 <= i < items.len(),
    ensures
        plan_from(targets, fill, known, items).len() == items.len(),
        plan_from(targets, fill, known, items)[i] == asset_outcome(
            targets,
            fill,
            known + created_keys(plan_from(targets, fill, known, items).take(i)),
            items[i],
        ),
    decreases items.len(),
{
    law_discovery_creates_for_the_matching_target(targets, fill, known, items);
    let o = asset_outcome(targets, fill, known, items[0]);
    let known2 = known + outcome_keys(o);
    let rest = plan_from(targets, fill, known2, items.drop_first());
    let plan = plan_from(targets, fill, known, items);
    assert(plan =~= seq![o] + rest);
    if i == 0 {
        assert(plan.take(0) =~= Seq::<PlannedOutcome>::empty());
        assert(known + created_keys(plan.take(0)) =~= known);
    } else {
        lemma_plan_at(targets, fill, known2, items.drop_first(), i - 1);
        assert(plan[i] == rest[i - 1]);
        assert(items.drop_first()[i - 1] == items[i]);
        let pre = plan.take(i);
        assert(pre[0] == o);
        assert(pre.drop_first() =~= rest.take(i - 1));
        assert(created_keys(pre) == outcome_keys(o) + created_keys(rest.take(i - 1)));
        assert(known + created_keys(pre) =~= known2 + created_keys(rest.take(i - 1)));
    }
}

/// Discovery creates the mapping for an asset that exactly one target
/// matches, when no stored mapping and no earlier decision covers that
/// target and the release's version: the target, the release's version, the
/// fill version and the asset's download URL.
pub proof fn law_discovery_creates_unmapped_single_match(
    targets: Seq<Target>,
    fill: Option<SemVerParts>,
    mappings: Seq<TargetVersionMapping>,
    items: Seq<AssetItem>,
    i: int,
    k: usize,
)
    requires
        0 <= i < items.len(),
        (k as int) < targets.len(),
        regex_set_matches(target_patterns(targets), items[i].2) == seq![k],
        forall|s: int|
            0 <= s < mappings.len() ==> !((#[trigger] mappings[s]).target_id == targets[k as int].id
                && mappings[s].current_version@ == items[i].0),
        forall|j: int|
            0 <= j < i ==> !creates_key(
                #[trigger] plan_from(targets, fill, mapping_keys(mappings), items)[j],
                (targets[k as int].id, items[i].0),
            ),
    ensures
        plan_from(targets, fill, mapping_keys(mappings), items)[i] == PlannedOutcome::Create(
            (targets[k as int].id, items[i].0, fill, items[i].1),
        ),
{
    let known = mapping_keys(mappings);
    let plan = plan_from(targets, fill, known, items);
    lemma_plan_at(targets, fill, known, items, i);
    let key = (targets[k as int].id, items[i].0);
    let pre = plan.take(i);
    let all = known + created_keys(pre);
    let hits = regex_set_matches(target_patterns(targets), items[i].2);
    assert(hits.len() == 1 && hits[0] == k);
    if all.contains(key) {
        let p = choose|p: int| 0 <= p < all.len() && all[p] == key;
        if p < known.len() {
            assert(known[p] == key);
            assert(mappings[p].target_id == targets[k as int].id && mappings[p].current_version@ == items[i].0);
            assert(false);
        } else {
            assert(created_keys(pre)[p - known.len()] == key);
            assert(created_keys(pre).contains(key));
            lemma_created_key_witness(pre, key);
            let j = choose|j: int| 0 <= j < pre.len() && creates_key(#[trigger] pre[j], key);
            assert(pre[j] == plan[j]);
            assert(false);
        }
    }
    assert(!all.contains(key));
}

/// Discovery never creates a mapping for an asset of a release whose version
/// a stored mapping of the matching target already has, whatever that
/// mapping's update version: the decision is that the asset is already
/// mapped.
pub proof fn law_discovery_skips_stored_keys(
    targets: Seq<Target>,
    fill: Option<SemVerParts>,
    mappings: Seq<TargetVersionMapping>,
    items: Seq<AssetItem>,
    i: int,
    k: usize,
    s: int,
)
    requires
        0 <= i < items.len(),
        (k as int) < targets.len(),
        regex_set_matches(target_patterns(targets), items[i].2) == seq![k],
        0 <= s < mappings.len(),
        mappings[s].target_id == targets[k as int].id,
        mappings[s].current_version@ == items[i].0,
    ensures
        plan_from(targets, fill, mapping_keys(mappings), items)[i] == PlannedOutcome::AlreadyMapped,
{
    let known = mapping_keys(mappings);
    let plan = plan_from(targets, fill, known, items);
    lemma_plan_at(targets, fill, known, items, i);
    let all = known + created_keys(plan.take(i));
    let hits = regex_set_matches(target_patterns(targets), items[i].2);
    assert(hits.len() == 1 && hits[0] == k);
    assert(known[s] == (targets[k as int].id, items[i].0));
    assert(all[s] == (targets[k as int].id, items[i].0));
    assert(all.contains((targets[k as int].id, items[i].0)));
}

/// An asset that no target matches, or that more than one target matches,
/// never gets a mapping.
pub proof fn law_discovery_needs_exactly_one_match(
    targets: Seq<Target>,
    fill: Option<SemVerParts>,
    known: Seq<MappingKey>,
    items: Seq<AssetItem>,
    i: int,
)
    requires
        0 <= i < items.len(),
        regex_set_matches(target_patterns(targets), items[i].2).len() != 1,
    ensures
        !(plan_from(targets, fill, known, items)[i] is Create),
{
    lemma_plan_at(targets, fill, known, items, i);
}

/// An update request names no stored target: it is refused as such.
pub proof fn law_update_unknown_target(
    targets: Seq<Target>,
    mappings: Seq<TargetVersionMapping>,
    name: Seq<char>,
    raw: Seq<char>,
)
    requires
        forall|j: int| 0 <= j < targets.len() ==> (#[trigger] targets[j]).target@ != name,
    ensures
        tauri_outcome(targets, mappings, name, raw) == TauriOutcome::TargetNotFound,
{
    if exists|i: int| is_first_target_named(targets, name, i) {
        let i = choose|i: int| is_first_target_named(targets, name, i);
        assert(targets[i].target@ != name);
    }
}

/// The client's version is no semantic version: the request is refused with
/// the parser's message, once the target is found.
pub proof fn law_update_refuses_bad_version(
    targets: Seq<Target>,
    mappings: Seq<TargetVersionMapping>,
    name: Seq<char>,
    raw: Seq<char>,
    ti: int,
)
    requires
        0 <= ti < targets.len(),
        targets[ti].target@ == name,
        forall|j: int| 0 <= j < ti ==> (#[trigger] targets[j]).target@ != name,
        semver_parse(raw) is None,
    ensures
        tauri_outcome(targets, mappings, name, raw) == TauriOutcome::InvalidVersion(
            semver_error_text(raw),
        ),
{
    lemma_first_target(targets, name, ti);
}

/// The client's target has no mapping for the client's version: the request
/// is refused as such.
pub proof fn law_update_needs_client_mapping(
    targets: Seq<Target>,
    mappings: Seq<TargetVersionMapping>,
    name: Seq<char>,
    raw: Seq<char>,
    ti: int,
    cur: SemVerParts,
)
    requires
        0 <= ti < targets.len(),
        targets[ti].target@ == name,
        forall|j: int| 0 <= j < ti ==> (#[trigger] targets[j]).target@ != name,
        semver_parse(raw) == Some(cur),
        forall|j: int|
            0 <= j < mappings.len() ==> !((#[trigger] mappings[j]).target_id == targets[ti].id
                && mappings[j].current_version@ == cur),
    ensures
        tauri_outcome(targets, mappings, name, raw) == TauriOutcome::MappingNotFound,
{
    lemma_first_target(targets, name, ti);
    if exists|i: int| is_first_mapping_with_key(mappings, targets[ti].id, cur, i) {
        let i = choose|i: int| is_first_mapping_with_key(mappings, targets[ti].id, cur, i);
        assert(mapping_has_key(mappings[i], targets[ti].id, cur));
    }
}

/// The client's mapping sends it to the latest version and its target has
/// none: the request is refused as such.
pub proof fn law_update_needs_latest(
    targets: Seq<Target>,
    mappings: Seq<TargetVersionMapping>,
    name: Seq<char>,
    raw: Seq<char>,
    ti: int,
    cur: SemVerParts,
    mi: int,
)
    requires
        0 <= ti < targets.len(),
        targets[ti].target@ == name,
        forall|j: int| 0 <= j < ti ==> (#[trigger] targets[j]).target@ != name,
        semver_parse(raw) == Some(cur),
        0 <= mi < mappings.len(),
        mappings[mi].target_id == targets[ti].id,
        mappings[mi].current_version@ == cur,
        forall|j: int|
            0 <= j < mi ==> !((#[trigger] mappings[j]).target_id == targets[ti].id
                && mappings[j].current_version@ == cur),
        mappings[mi].update_version@ is None,
        targets[ti].latest is None,
    ensures
        tauri_outcome(targets, mappings, name, raw) == TauriOutcome::LatestNotSet,
{
    lemma_first_target(targets, name, ti);
    lemma_first_mapping(mappings, targets[ti].id, cur, mi);
}

/// The version the client is sent to has no mapping of the client's target:
/// the request is refused as such.
pub proof fn law_update_needs_target_mapping(
    targets: Seq<Target>,
    mappings: Seq<TargetVersionMapping>,
    name: Seq<char>,
    raw: Seq<char>,
    ti: int,
    cur: SemVerParts,
    mi: int,
    uv: SemVerParts,
)
    requires
        0 <= ti < targets.len(),
        targets[ti].target@ == name,
        forall|j: int| 0 <= j < ti ==> (#[trigger] targets[j]).target@ != name,
        semver_parse(raw) == Some(cur),
        0 <= mi < mappings.len(),
        mappings[mi].target_id == targets[ti].id,
        mappings[mi].current_version@ == cur,
        forall|j: int|
            0 <= j < mi ==> !((#[trigger] mappings[j]).target_id == targets[ti].id
                && mappings[j].current_version@ == cur),
        mappings[mi].update_version@ == Some(uv) || (mappings[mi].update_version@ is None && (
        targets[ti].latest matches Some(l) && l@ == uv)),
        forall|j: int|
            0 <= j < mappings.len() ==> !((#[trigger] mappings[j]).target_id == targets[ti].id
                && mappings[j].current_version@ == uv),
    ensures
        tauri_outcome(targets, mappings, name, raw) == TauriOutcome::UpdateMappingNotFound,
{
    lemma_first_target(targets, name, ti);
    lemma_first_mapping(mappings, targets[ti].id, cur, mi);
    if exists|i: int| is_first_mapping_with_key(mappings, targets[ti].id, uv, i) {
        let i = choose|i: int| is_first_mapping_with_key(mappings, targets[ti].id, uv, i);
        assert(mapping_has_key(mappings[i], targets[ti].id, uv));
    }
}

/// The assets of one release are its own assets in order, each with the
/// release's version; and the assets of releases one after the other are
/// those of the first releases followed by those of the others.
pub proof fn law_asset_items_in_release_order(a: Seq<GithubRelease>, b: Seq<GithubRelease>, r: GithubRelease)
    ensures
        asset_items(seq![r]).len() == r.assets@.len(),
        forall|j: int|
            0 <= j < r.assets@.len() ==> #[trigger] asset_items(seq![r])[j] == (
                r.tag_name@,
                r.assets@[j].browser_download_url@,
                r.assets@[j].name@,
            ),
        asset_items(a + b) == asset_items(a) + asset_items(b),
    decreases b.len(),
{
    assert(seq![r].drop_last() =~= Seq::<GithubRelease>::empty());
    assert(seq![r].last() == r);
    assert(asset_items(Seq::<GithubRelease>::empty()) =~= Seq::<AssetItem>::empty());
    assert(asset_items(seq![r]) =~= Seq::<AssetItem>::empty() + release_items(r));
    if b.len() == 0 {
        assert(a + b =~= a);
        assert(asset_items(a) + asset_items(b) =~= asset_items(a));
    } else {
        law_asset_items_in_release_order(a, b.drop_last(), r);
        assert((a + b).drop_last() =~= a + b.drop_last());
        assert((a + b).last() == b.last());
        assert(asset_items(a + b) =~= asset_items(a) + asset_items(b));
    }
}

} // verus!
