//! What the server answers a Tauri client that asks for an update.

use vstd::prelude::*;
use vstd::string::StringExecFns;
use crate::crud::{
    find_mapping, find_target_by_name, is_first_mapping_with_key, is_first_target_named,
};
use crate::models::{clone_opt_semver, opt_semver_view, SemVer, Target, TargetVersionMapping, Url, Version};
use crate::semver_calls::{semver_error_text, semver_parse, SemVerParts};

verus! {

/// The answer to a client for which an update is available.
#[derive(Debug)]
pub struct UpdateAvailableResponse {
    pub url: Url,
    pub version: SemVer,
    pub notes: Option<String>,
    pub pub_date: Option<String>,
    pub signature: Option<String>,
}

/// Why no answer could be given.
#[derive(Debug)]
pub enum TauriError {
    /// No target has the name asked for.
    TargetNotFound,
    /// The client's version is no semantic version; the parser's message.
    InvalidVersion(String),
    /// No mapping exists for the target and the client's version.
    MappingNotFound,
    /// The mapping sends clients to the latest version, and the target has none.
    LatestNotSet,
    /// No mapping exists for the version the client is sent to.
    UpdateMappingNotFound,
}

impl TauriError {
    /// The message the server reports for the error.
    pub fn message(&self) -> (s: String)
        ensures
            s@ == match self {
                TauriError::TargetNotFound => "Error: Record not found"@,
                TauriError::InvalidVersion(m) => "Error: "@ + m@,
                TauriError::MappingNotFound => "Mapping not found"@,
                TauriError::LatestNotSet => "Latest not set for target"@,
                TauriError::UpdateMappingNotFound => "Update Mapping not found"@,
            },
    {
        match self {
            TauriError::TargetNotFound => String::from_str("Error: Record not found"),
            TauriError::InvalidVersion(m) => {
                let mut s = String::from_str("Error: ");
                s.append(m.as_str());
                s
            },
            TauriError::MappingNotFound => String::from_str("Mapping not found"),
            TauriError::LatestNotSet => String::from_str("Latest not set for target"),
            TauriError::UpdateMappingNotFound => String::from_str("Update Mapping not found"),
        }
    }
}

/// The outcome of an update request, as the contract of
/// `tauri_produce_response` describes it.
pub enum TauriOutcome {
    TargetNotFound,
    /// The client's version is refused, with the parser's message.
    InvalidVersion(Seq<char>),
    MappingNotFound,
    LatestNotSet,
    UpdateMappingNotFound,
    /// The client already runs the version it would be sent to.
    UpToDate,
    /// An update is available: its download URL and its version.
    Update(Seq<char>, SemVerParts),
}

/// The position of the first target with this name, if any.
pub open spec fn first_target_named(ts: Seq<Target>, name: Seq<char>) -> Option<int> {
    if exists|i: int| is_first_target_named(ts, name, i) {
        Some(choose|i: int| is_first_target_named(ts, name, i))
    } else {
        None
    }
}

/// The position of the first mapping for this target and version, if any.
pub open spec fn first_mapping_with_key(ms: Seq<TargetVersionMapping>, target_id: i32, version: SemVerParts) -> Option<int> {
    if exists|i: int| is_first_mapping_with_key(ms, target_id, version, i) {
        Some(choose|i: int| is_first_mapping_with_key(ms, target_id, version, i))
    } else {
        None
    }
}

/// The version a mapping sends a client to: its fixed version, or the
/// target's latest version (none when the target has none).
pub open spec fn update_target_version(update: Option<SemVerParts>, latest: Option<SemVerParts>) -> Option<SemVerParts> {
    match update {
        Some(v) => Some(v),
        None => latest,
    }
}

/// The outcome of a request for target `name` from a client running the
/// version written `raw`, against these stored targets and mappings: find the
/// target, parse the client's version, find its mapping, pick the version it
/// sends the client to, find that version's mapping, and offer its asset
/// unless the client already runs that version.
pub open spec fn tauri_outcome(
    targets: Seq<Target>,
    mappings: Seq<TargetVersionMapping>,
    name: Seq<char>,
    raw: Seq<char>,
) -> TauriOutcome {
    match first_target_named(targets, name) {
        None => TauriOutcome::TargetNotFound,
        Some(ti) => match semver_parse(raw) {
            None => TauriOutcome::InvalidVersion(semver_error_text(raw)),
            Some(cur) => match first_mapping_with_key(mappings, targets[ti].id, cur) {
                None => TauriOutcome::MappingNotFound,
                Some(mi) => match update_target_version(
                    mappings[mi].update_version@,
                    opt_semver_view(targets[ti].latest),
                ) {
                    None => TauriOutcome::LatestNotSet,
                    Some(uv) => match first_mapping_with_key(mappings, targets[ti].id, uv) {
                        None => TauriOutcome::UpdateMappingNotFound,
                        Some(ai) => if mappings[ai].current_version@ == cur {
                            TauriOutcome::UpToDate
                        } else {
                            TauriOutcome::Update(
                                mappings[ai].download_url@,
                                mappings[ai].current_version@,
                            )
                        },
                    },
                },
            },
        },
    }
}

/// Whether an answer is the one the outcome describes.
pub open spec fn answers(res: Result<Option<UpdateAvailableResponse>, TauriError>, o: TauriOutcome) -> bool {
    match o {
        TauriOutcome::TargetNotFound => res matches Err(TauriError::TargetNotFound),
        TauriOutcome::InvalidVersion(msg) => res matches Err(TauriError::InvalidVersion(m)) && m@ == msg,
        TauriOutcome::MappingNotFound => res matches Err(TauriError::MappingNotFound),
        TauriOutcome::LatestNotSet => res matches Err(TauriError::LatestNotSet),
        TauriOutcome::UpdateMappingNotFound => res matches Err(TauriError::UpdateMappingNotFound),
        TauriOutcome::UpToDate => res matches Ok(None),
        TauriOutcome::Update(url, version) => res matches Ok(Some(r)) && r.url@ == url
            && r.version@ == version && r.notes is None && r.pub_date is None
            && r.signature is None,
    }
}

pub(crate) proof fn lemma_first_target(ts: Seq<Target>, name: Seq<char>, i: int)
    requires
        is_first_target_named(ts, name, i),
    ensures
        first_target_named(ts, name) == Some(i),
{
    let k = choose|k: int| is_first_target_named(ts, name, k);
    assert(is_first_target_named(ts, name, k));
    if k < i {
        assert(ts[k].target@ != name);
    } else if i < k {
        assert(ts[i].target@ != name);
    }
}

pub(crate) proof fn lemma_first_mapping(ms: Seq<TargetVersionMapping>, id: i32, v: SemVerParts, i: int)
    requires
        is_first_mapping_with_key(ms, id, v, i),
    ensures
        first_mapping_with_key(ms, id, v) == Some(i),
{
    let k = choose|k: int| is_first_mapping_with_key(ms, id, v, k);
    assert(is_first_mapping_with_key(ms, id, v, k));
    if k < i {
        assert(!crate::crud::mapping_has_key(ms[k], id, v));
    } else if i < k {
        assert(!crate::crud::mapping_has_key(ms[i], id, v));
    }
}

/// The version the mapping sends a client of the target to.
pub fn update_version_for(mapping: &TargetVersionMapping, target: &Target) -> (res: Option<SemVer>)
    ensures
        opt_semver_view(res) == update_target_version(
            mapping.update_version@,
            opt_semver_view(target.latest),
        ),
{
    match &mapping.update_version {
        Version::Latest => clone_opt_semver(&target.latest),
        Version::SemVer(v) => Some(v.clone()),
    }
}

/// Answers a client of target `target_name` that runs the version written
/// `current_version_raw`, from the stored targets and mappings: no update
/// when it already runs the version its mapping sends it to, else that
/// version and where to download it.
pub fn tauri_produce_response(
    targets: &Vec<Target>,
    mappings: &Vec<TargetVersionMapping>,
    target_name: String,
    current_version_raw: String,
) -> (res: Result<Option<UpdateAvailableResponse>, TauriError>)
    ensures
        answers(res, tauri_outcome(targets@, mappings@, target_name@, current_version_raw@)),
{
    let ti = match find_target_by_name(targets, target_name.as_str()) {
        Some(i) => i,
        None => {
            return Err(TauriError::TargetNotFound);
        },
    };
    proof {
        lemma_first_target(targets@, target_name@, ti as int);
    }
    let target = &targets[ti];
    let current_version = match SemVer::from_str(current_version_raw.as_str()) {
        Ok(v) => v,
        Err(e) => {
            return Err(TauriError::InvalidVersion(e));
        },
    };
    let mi = match find_mapping(mappings, target.id, &current_version) {
        Some(i) => i,
        None => {
            return Err(TauriError::MappingNotFound);
        },
    };
    proof {
        lemma_first_mapping(mappings@, target.id, current_version@, mi as int);
    }
    let update_version = match update_version_for(&mappings[mi], target) {
        Some(v) => v,
        None => {
            return Err(TauriError::LatestNotSet);
        },
    };
    let ai = match find_mapping(mappings, target.id, &update_version) {
        Some(i) => i,
        None => {
            return Err(TauriError::UpdateMappingNotFound);
        },
    };
    proof {
        lemma_first_mapping(mappings@, target.id, update_version@, ai as int);
    }
    let asset_mapping = &mappings[ai];
    if asset_mapping.current_version == current_version {
        Ok(None)
    } else {
        Ok(
            Some(
                UpdateAvailableResponse {
                    url: asset_mapping.download_url.clone(),
                    version: asset_mapping.current_version.clone(),
                    notes: None,
                    pub_date: None,
                    signature: None,
                },
            ),
        )
    }
}

} // verus!
