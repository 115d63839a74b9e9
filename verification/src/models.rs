//! The records the server stores and serves: versions, targets, the
//! mappings from a target's current version to the version it should update
//! to, and the server configuration.

use vstd::prelude::*;
use vstd::std_specs::cmp::PartialEqSpecImpl;
use vstd::string::StringExecFns;
use crate::semver_calls::{
    semver_canonical, semver_error_text, semver_lt, semver_parse, semver_parse_parts,
    semver_precedes, semver_text, SemVerParts,
};
use crate::regex_calls::{regex_accepts, regex_error, regex_error_text};
use crate::text::{is_ascii_digit, push_decimal};

verus! {

/// A URL as the server stores and serves it.
pub type Url = String;

/// A semantic version, as `semver::Version` parses it: major, minor and patch
/// numbers, a pre-release part and build metadata (each empty when absent).
///
/// Every value is canonical: its text parses back to it.
#[derive(Debug)]
pub struct SemVer {
    major: u64,
    minor: u64,
    patch: u64,
    pre: String,
    build: String,
}

impl View for SemVer {
    type V = SemVerParts;

    closed spec fn view(&self) -> SemVerParts {
        (self.major, self.minor, self.patch, self.pre@, self.build@)
    }
}

impl SemVer {
    #[verifier::type_invariant]
    closed spec fn canonical(self) -> bool {
        semver_canonical(self@)
    }

    /// Parses a version with `semver::Version::parse`; the error is the
    /// parser's message.
    pub fn from_str(text: &str) -> (res: Result<SemVer, String>)
        ensures
            match semver_parse(text@) {
                Some(p) => res matches Ok(v) && v@ == p,
                None => res matches Err(m) && m@ == semver_error_text(text@),
            },
            res matches Ok(v) ==> semver_canonical(v@),
            (text@.len() == 0 || !is_ascii_digit(text@[0])) ==> semver_parse(text@) is None,
    {
        match semver_parse_parts(text) {
            Ok(p) => {
                let (major, minor, patch, pre, build) = p;
                Ok(SemVer { major, minor, patch, pre, build })
            },
            Err(e) => Err(e),
        }
    }

    /// Reads a version stored as text (as `text` writes it): the stored
    /// text is parsed as `from_str` does, and a refused text is reported with
    /// the parser's message for the caller to act on.
    pub fn build(row: &str) -> (res: Result<SemVer, String>)
        ensures
            match semver_parse(row@) {
                Some(p) => res matches Ok(v) && v@ == p,
                None => res matches Err(m) && m@ == semver_error_text(row@),
            },
            res matches Ok(v) ==> semver_canonical(v@),
    {
        SemVer::from_str(row)
    }

    /// The major version number.
    pub fn major(&self) -> (r: u64)
        ensures
            r == self@.0,
    {
        self.major
    }

    /// The minor version number.
    pub fn minor(&self) -> (r: u64)
        ensures
            r == self@.1,
    {
        self.minor
    }

    /// The patch number.
    pub fn patch(&self) -> (r: u64)
        ensures
            r == self@.2,
    {
        self.patch
    }

    /// The pre-release part, empty when there is none.
    pub fn pre(&self) -> (r: &str)
        ensures
            r@ == self@.3,
    {
        self.pre.as_str()
    }

    /// The build metadata, empty when there is none.
    pub fn build_metadata(&self) -> (r: &str)
        ensures
            r@ == self@.4,
    {
        self.build.as_str()
    }

    /// Establishes, for proofs about this value, that it is canonical: its
    /// text parses back to it. Does nothing at run time.
    pub fn check_canonical(&self)
        ensures
            semver_canonical(self@),
    {
        proof {
            use_type_invariant(self);
        }
    }

    /// The text of the version, as `semver::Version`'s `Display` writes it.
    pub fn text(&self) -> (s: String)
        ensures
            s@ == semver_text(self@),
    {
        proof {
            reveal_strlit(".");
            reveal_strlit("-");
            reveal_strlit("+");
        }
        let mut s = String::new();
        push_decimal(&mut s, self.major);
        s.append(".");
        push_decimal(&mut s, self.minor);
        s.append(".");
        push_decimal(&mut s, self.patch);
        if !self.pre.as_str().is_empty() {
            s.append("-");
            s.append(self.pre.as_str());
        }
        if !self.build.as_str().is_empty() {
            s.append("+");
            s.append(self.build.as_str());
        }
        assert(s@ =~= semver_text(self@));
        s
    }

    /// Whether this version comes before `other` in `semver::Version`'s order.
    pub fn precedes(&self, other: &SemVer) -> (r: bool)
        ensures
            r == semver_precedes(self@, other@),
            self@ == other@ ==> !r,
            r ==> !semver_precedes(other@, self@),
            !r ==> (self@ == other@ || semver_precedes(other@, self@)),
            r ==> forall|c: SemVerParts|
                semver_canonical(c) && semver_precedes(c, self@) ==> semver_precedes(c, other@),
    {
        proof {
            use_type_invariant(self);
            use_type_invariant(other);
        }
        semver_lt(
            (self.major, self.minor, self.patch, self.pre.as_str(), self.build.as_str()),
            (other.major, other.minor, other.patch, other.pre.as_str(), other.build.as_str()),
        )
    }
}

impl Clone for SemVer {
    fn clone(&self) -> (r: Self)
        ensures
            r@ == self@,
    {
        proof {
            use_type_invariant(self);
        }
        SemVer {
            major: self.major,
            minor: self.minor,
            patch: self.patch,
            pre: self.pre.clone(),
            build: self.build.clone(),
        }
    }
}

impl PartialEq for SemVer {
    fn eq(&self, other: &Self) -> (r: bool) {
        self.major == other.major && self.minor == other.minor && self.patch == other.patch
            && self.pre == other.pre && self.build == other.build
    }
}

impl PartialEqSpecImpl for SemVer {
    open spec fn obeys_eq_spec() -> bool {
        true
    }

    open spec fn eq_spec(&self, other: &SemVer) -> bool {
        self@ == other@
    }
}

/// The version a client is told to update to: whatever is latest for its
/// target, or a fixed semantic version.
#[derive(Debug)]
pub enum Version {
    Latest,
    SemVer(SemVer),
}

impl View for Version {
    /// `None` for `Latest`, else the parts of the semantic version.
    type V = Option<SemVerParts>;

    open spec fn view(&self) -> Option<SemVerParts> {
        match self {
            Version::Latest => None,
            Version::SemVer(v) => Some(v@),
        }
    }
}

/// What `Version::from_str` makes of a text: a semantic version where
/// `semver::Version::parse` accepts it (only a text that begins with a digit
/// can be one), else `Latest` for the text `LATEST`, else nothing.
pub open spec fn version_parse(raw: Seq<char>) -> Option<Option<SemVerParts>> {
    if raw.len() > 0 && is_ascii_digit(raw[0]) && semver_parse(raw) is Some {
        Some(semver_parse(raw))
    } else if raw == "LATEST"@ {
        Some(None)
    } else {
        None
    }
}

/// The message of the error for a text that is no version.
pub open spec fn version_error_text(raw: Seq<char>) -> Seq<char> {
    "Unable to parse '"@ + raw + "' as Version"@
}

/// The text a version is stored and sent as: `LATEST`, or the text of the
/// semantic version.
pub open spec fn version_text(v: Option<SemVerParts>) -> Seq<char> {
    match v {
        None => "LATEST"@,
        Some(p) => semver_text(p),
    }
}

/// The debugging form of a version: `VERSION<Latest>` or `Version<text>`.
pub open spec fn version_debug_text(v: Option<SemVerParts>) -> Seq<char> {
    match v {
        None => "VERSION<Latest>"@,
        Some(p) => "Version<"@ + semver_text(p) + ">"@,
    }
}

impl Version {
    /// Parses a version: a semantic version takes precedence, then the word
    /// `LATEST`; anything else is refused with a message that quotes it.
    pub fn from_str(raw: &str) -> (res: Result<Version, String>)
        ensures
            match version_parse(raw@) {
                Some(v) => res matches Ok(x) && x@ == v,
                None => res matches Err(m) && m@ == version_error_text(raw@),
            },
    {
        match SemVer::from_str(raw) {
            Ok(v) => Ok(Version::SemVer(v)),
            Err(_) => {
                let latest = String::from_str("LATEST");
                let owned = raw.to_owned();
                proof {
                    reveal_strlit("LATEST");
                }
                if owned == latest {
                    Ok(Version::Latest)
                } else {
                    let mut msg = String::from_str("Unable to parse '");
                    msg.append(raw);
                    msg.append("' as Version");
                    Err(msg)
                }
            },
        }
    }

    /// Reads a version stored as text (as `to_text` writes it), as
    /// `from_str` does; a refused text is reported for the caller to act on.
    pub fn build(row: &str) -> (res: Result<Version, String>)
        ensures
            match version_parse(row@) {
                Some(v) => res matches Ok(x) && x@ == v,
                None => res matches Err(m) && m@ == version_error_text(row@),
            },
    {
        Version::from_str(row)
    }

    /// The text the version is stored and sent as.
    pub fn to_text(&self) -> (s: String)
        ensures
            s@ == version_text(self@),
    {
        match self {
            Version::Latest => String::from_str("LATEST"),
            Version::SemVer(v) => v.text(),
        }
    }

    /// The debugging form of the version.
    pub fn debug_text(&self) -> (s: String)
        ensures
            s@ == version_debug_text(self@),
    {
        match self {
            Version::Latest => String::from_str("VERSION<Latest>"),
            Version::SemVer(v) => {
                let mut s = String::from_str("Version<");
                let t = v.text();
                s.append(t.as_str());
                s.append(">");
                s
            },
        }
    }
}

impl Clone for Version {
    fn clone(&self) -> (r: Self)
        ensures
            r@ == self@,
    {
        match self {
            Version::Latest => Version::Latest,
            Version::SemVer(v) => Version::SemVer(v.clone()),
        }
    }
}

impl PartialEq for Version {
    fn eq(&self, other: &Self) -> (r: bool) {
        match (self, other) {
            (Version::Latest, Version::Latest) => true,
            (Version::SemVer(a), Version::SemVer(b)) => a == b,
            _ => false,
        }
    }
}

impl PartialEqSpecImpl for Version {
    open spec fn obeys_eq_spec() -> bool {
        true
    }

    open spec fn eq_spec(&self, other: &Version) -> bool {
        self@ == other@
    }
}

/// The parts of an optional semantic version.
pub open spec fn opt_semver_view(o: Option<SemVer>) -> Option<SemVerParts> {
    match o {
        Some(v) => Some(v@),
        None => None,
    }
}

/// The texts of an optional string.
pub open spec fn opt_text_view(o: Option<String>) -> Option<Seq<char>> {
    match o {
        Some(s) => Some(s@),
        None => None,
    }
}

/// Copies an optional semantic version.
pub fn clone_opt_semver(o: &Option<SemVer>) -> (r: Option<SemVer>)
    ensures
        opt_semver_view(r) == opt_semver_view(*o),
{
    match o {
        Some(v) => Some(v.clone()),
        None => None,
    }
}

/// Copies an optional string.
pub fn clone_opt_text(o: &Option<String>) -> (r: Option<String>)
    ensures
        opt_text_view(r) == opt_text_view(*o),
{
    match o {
        Some(s) => Some(s.clone()),
        None => None,
    }
}

/// A regular expression as a target stores it: its source text, which the
/// `regex` crate accepted when it came in from a client.
#[derive(Debug)]
pub struct ValidRegex(String);

impl View for ValidRegex {
    type V = Seq<char>;

    closed spec fn view(&self) -> Seq<char> {
        self.0@
    }
}

impl ValidRegex {
    /// Accepts the text when `regex::Regex::new` compiles it; the error is the
    /// compiler's message.
    pub fn parse(text: String) -> (res: Result<ValidRegex, String>)
        ensures
            res is Ok <==> regex_accepts(text@),
            res matches Ok(r) ==> r@ == text@,
            res matches Err(m) ==> m@ == regex_error_text(text@),
    {
        match regex_error(text.as_str()) {
            None => Ok(ValidRegex(text)),
            Some(e) => Err(e),
        }
    }

    /// Reads a regular expression stored as text, without compiling it
    /// again: the text is kept as it is, so it compiles exactly when the
    /// stored text does.
    pub fn build(row: String) -> (r: ValidRegex)
        ensures
            r@ == row@,
            regex_accepts(r@) == regex_accepts(row@),
    {
        ValidRegex(row)
    }

    /// A copy of the source text.
    pub fn as_string(&self) -> (s: String)
        ensures
            s@ == self@,
    {
        self.0.clone()
    }

    /// The source text.
    pub fn into_string(self) -> (s: String)
        ensures
            s@ == self@,
    {
        self.0
    }
}

impl Clone for ValidRegex {
    fn clone(&self) -> (r: Self)
        ensures
            r@ == self@,
    {
        ValidRegex(self.0.clone())
    }
}

/// The server's configuration: the version new mappings send clients to, the
/// regular expression for assets, and the GitHub repository to watch.
#[derive(Debug)]
pub struct Config {
    pub id: i32,
    pub fill_version: Version,
    pub asset_regex: ValidRegex,
    pub github_user: Option<String>,
    pub github_repo: Option<String>,
}

impl Clone for Config {
    fn clone(&self) -> (r: Self)
        ensures
            r.id == self.id,
            r.fill_version@ == self.fill_version@,
            r.asset_regex@ == self.asset_regex@,
            opt_text_view(r.github_user) == opt_text_view(self.github_user),
            opt_text_view(r.github_repo) == opt_text_view(self.github_repo),
    {
        Config {
            id: self.id,
            fill_version: self.fill_version.clone(),
            asset_regex: self.asset_regex.clone(),
            github_user: clone_opt_text(&self.github_user),
            github_repo: clone_opt_text(&self.github_repo),
        }
    }
}

/// A mapping's fields: target id, current version, the version to update to
/// (`None` for the latest) and the download URL.
pub type MappingView = (i32, SemVerParts, Option<SemVerParts>, Seq<char>);

/// For a target and the version a client of it runs, the version it should
/// update to and where that version's asset is downloaded from. The target id
/// and current version identify the mapping.
#[derive(Debug)]
pub struct TargetVersionMapping {
    pub target_id: i32,
    pub current_version: SemVer,
    pub update_version: Version,
    pub download_url: Url,
}

impl View for TargetVersionMapping {
    type V = MappingView;

    open spec fn view(&self) -> MappingView {
        (self.target_id, self.current_version@, self.update_version@, self.download_url@)
    }
}

impl Clone for TargetVersionMapping {
    fn clone(&self) -> (r: Self)
        ensures
            r@ == self@,
    {
        TargetVersionMapping {
            target_id: self.target_id,
            current_version: self.current_version.clone(),
            update_version: self.update_version.clone(),
            download_url: self.download_url.clone(),
        }
    }
}

/// A target's fields: id, name, regular expression and latest version.
pub type TargetView = (i32, Seq<char>, Seq<char>, Option<SemVerParts>);

/// A build target: its name, the regular expression that recognizes its
/// release assets, and the latest version mapped for it.
#[derive(Debug)]
pub struct Target {
    pub id: i32,
    pub target: String,
    pub regex: ValidRegex,
    pub latest: Option<SemVer>,
}

impl View for Target {
    type V = TargetView;

    open spec fn view(&self) -> TargetView {
        (self.id, self.target@, self.regex@, opt_semver_view(self.latest))
    }
}

impl Clone for Target {
    fn clone(&self) -> (r: Self)
        ensures
            r@ == self@,
    {
        Target {
            id: self.id,
            target: self.target.clone(),
            regex: self.regex.clone(),
            latest: clone_opt_semver(&self.latest),
        }
    }
}

/// A target as a client submits it, before it has an id.
#[derive(Debug)]
pub struct NewTarget {
    target: String,
    regex: String,
}

impl NewTarget {
    /// A new target with this name and regular expression.
    pub fn new(target: String, regex: String) -> (r: NewTarget)
        ensures
            r.target_spec() == target@,
            r.regex_spec() == regex@,
    {
        NewTarget { target, regex }
    }

    /// The name.
    pub closed spec fn target_spec(&self) -> Seq<char> {
        self.target@
    }

    /// The regular expression's text.
    pub closed spec fn regex_spec(&self) -> Seq<char> {
        self.regex@
    }

    /// A copy of the name.
    pub fn target(&self) -> (s: String)
        ensures
            s@ == self.target_spec(),
    {
        self.target.clone()
    }

    /// A copy of the regular expression's text.
    pub fn regex(&self) -> (s: String)
        ensures
            s@ == self.regex_spec(),
    {
        self.regex.clone()
    }
}

/// An error as the server reports it to a client.
#[derive(Debug)]
pub struct Error {
    msg: String,
}

impl Error {
    /// An error with this message.
    pub fn new(msg: String) -> (r: Error)
        ensures
            r.msg_spec() == msg@,
    {
        Error { msg }
    }

    /// The message.
    pub closed spec fn msg_spec(&self) -> Seq<char> {
        self.msg@
    }

    /// A copy of the message.
    pub fn msg(&self) -> (s: String)
        ensures
            s@ == self.msg_spec(),
    {
        self.msg.clone()
    }
}

} // verus!
