//! The decisions behind the server's record keeping: which stored row a
//! lookup returns, and how recording a mapping moves its target's latest
//! version.

use vstd::prelude::*;
use vstd::string::StrSliceExecFns;
use crate::models::{opt_semver_view, SemVer, Target, TargetVersionMapping};
use crate::semver_calls::{semver_canonical, semver_precedes, SemVerParts};

verus! {

/// Whether the mapping is the one for this target and current version.
pub open spec fn mapping_has_key(m: TargetVersionMapping, target_id: i32, version: SemVerParts) -> bool {
    m.target_id == target_id && m.current_version@ == version
}

/// Whether `i` is the position of the first mapping for this target and
/// current version.
pub open spec fn is_first_mapping_with_key(
    ms: Seq<TargetVersionMapping>,
    target_id: i32,
    version: SemVerParts,
    i: int,
) -> bool {
    &&& 0 <= i < ms.len()
    &&& mapping_has_key(ms[i], target_id, version)
    &&& forall|j: int| 0 <= j < i ==> !mapping_has_key(#[trigger] ms[j], target_id, version)
}

/// Whether `i` is the position of the first target with this name.
pub open spec fn is_first_target_named(ts: Seq<Target>, name: Seq<char>, i: int) -> bool {
    &&& 0 <= i < ts.len()
    &&& ts[i].target@ == name
    &&& forall|j: int| 0 <= j < i ==> (#[trigger] ts[j]).target@ != name
}

/// Whether `i` is the position of the first target with this id.
pub open spec fn is_first_target_with_id(ts: Seq<Target>, id: i32, i: int) -> bool {
    &&& 0 <= i < ts.len()
    &&& ts[i].id == id
    &&& forall|j: int| 0 <= j < i ==> (#[trigger] ts[j]).id != id
}

/// The row a query limited to one row hands back: the first, if any.
pub fn first_mapping(rows: Vec<TargetVersionMapping>) -> (res: Option<TargetVersionMapping>)
    ensures
        res is None <==> rows@.len() == 0,
        res matches Some(m) ==> m@ == rows@[0]@,
{
    let mut rows = rows;
    if rows.len() > 0 {
        Some(rows.swap_remove(0))
    } else {
        None
    }
}

/// The position of the first mapping for this target and current version.
pub fn find_mapping(mappings: &Vec<TargetVersionMapping>, target_id: i32, version: &SemVer) -> (res:
    Option<usize>)
    ensures
        match res {
            Some(i) => is_first_mapping_with_key(mappings@, target_id, version@, i as int),
            None => forall|j: int|
                0 <= j < mappings@.len() ==> !mapping_has_key(
                    #[trigger] mappings@[j],
                    target_id,
                    version@,
                ),
        },
{
    let mut i: usize = 0;
    while i < mappings.len()
        invariant
            i <= mappings@.len(),
            forall|j: int| 0 <= j < i ==> !mapping_has_key(#[trigger] mappings@[j], target_id, version@),
        decreases mappings@.len() - i,
    {
        if mappings[i].target_id == target_id && mappings[i].current_version == *version {
            return Some(i);
        }
        i = i + 1;
    }
    None
}

/// The position of the first target with this name.
pub fn find_target_by_name(targets: &Vec<Target>, name: &str) -> (res: Option<usize>)
    ensures
        match res {
            Some(i) => is_first_target_named(targets@, name@, i as int),
            None => forall|j: int| 0 <= j < targets@.len() ==> (#[trigger] targets@[j]).target@ != name@,
        },
{
    let mut i: usize = 0;
    while i < targets.len()
        invariant
            i <= targets@.len(),
            forall|j: int| 0 <= j < i ==> (#[trigger] targets@[j]).target@ != name@,
        decreases targets@.len() - i,
    {
        if targets[i].target == name.to_owned() {
            return Some(i);
        }
        i = i + 1;
    }
    None
}

/// The position of the first target with this id.
pub fn find_target_by_id(targets: &Vec<Target>, id: i32) -> (res: Option<usize>)
    ensures
        match res {
            Some(i) => is_first_target_with_id(targets@, id, i as int),
            None => forall|j: int| 0 <= j < targets@.len() ==> (#[trigger] targets@[j]).id != id,
        },
{
    let mut i: usize = 0;
    while i < targets.len()
        invariant
            i <= targets@.len(),
            forall|j: int| 0 <= j < i ==> (#[trigger] targets@[j]).id != id,
        decreases targets@.len() - i,
    {
        if targets[i].id == id {
            return Some(i);
        }
        i = i + 1;
    }
    None
}

/// A target's latest version once a mapping from `version` is recorded: the
/// mapping's version when there was none or when it comes after the old one,
/// else the old one.
pub open spec fn latest_after(latest: Option<SemVerParts>, version: SemVerParts) -> Option<SemVerParts> {
    match latest {
        Some(l) => if semver_precedes(l, version) {
            Some(version)
        } else {
            Some(l)
        },
        None => Some(version),
    }
}

/// Whether version `c` is the latest version `latest` or comes before it.
pub open spec fn at_or_before(c: SemVerParts, latest: Option<SemVerParts>) -> bool {
    latest matches Some(l) && (c == l || semver_precedes(c, l))
}

/// Records in the target that a mapping from `mapping.current_version`
/// exists: its latest version moves up to that version when it is later.
///
/// The latest version never moves back, and afterwards no mapped version
/// comes after it: it is the old latest version or later, and the mapping's
/// version or later. So the target's latest version keeps being at or after
/// every version mapped for it: whatever was at or before the old latest
/// version is at or before the new one.
pub fn note_mapping(target: &mut Target, mapping: &TargetVersionMapping)
    ensures
        final(target).id == old(target).id,
        final(target).target@ == old(target).target@,
        final(target).regex@ == old(target).regex@,
        opt_semver_view(final(target).latest) == latest_after(
            opt_semver_view(old(target).latest),
            mapping.current_version@,
        ),
        final(target).latest matches Some(n) && (old(target).latest matches Some(l) ==> (n@ == l@
            || semver_precedes(l@, n@))) && (n@ == mapping.current_version@ || semver_precedes(
            mapping.current_version@,
            n@,
        )),
        forall|c: SemVerParts|
            semver_canonical(c) && at_or_before(c, opt_semver_view(old(target).latest))
                ==> at_or_before(c, opt_semver_view(final(target).latest)),
        at_or_before(mapping.current_version@, opt_semver_view(final(target).latest)),
{
    let moves = match &target.latest {
        Some(l) => l.precedes(&mapping.current_version),
        None => true,
    };
    if moves {
        target.latest = Some(mapping.current_version.clone());
    }
}

} // verus!
