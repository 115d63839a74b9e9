//! The calls into the `semver` crate, each behind a trusted item.

use vstd::prelude::*;
use crate::text::{decimal_text, is_ascii_digit};

verus! {

/// The parts of a semantic version: major, minor and patch numbers, the
/// pre-release text and the build-metadata text (each empty when absent).
pub type SemVerParts = (u64, u64, u64, Seq<char>, Seq<char>);

/// The text that `semver::Version`'s `Display` writes for a version with
/// these parts: `major.minor.patch`, then `-pre` when there is a pre-release
/// part and `+build` when there is build metadata.
pub open spec fn semver_text(v: SemVerParts) -> Seq<char> {
    decimal_text(v.0 as nat) + seq!['.'] + decimal_text(v.1 as nat) + seq!['.'] + decimal_text(
        v.2 as nat,
    ) + (if v.3.len() > 0 {
        seq!['-'] + v.3
    } else {
        Seq::<char>::empty()
    }) + (if v.4.len() > 0 {
        seq!['+'] + v.4
    } else {
        Seq::<char>::empty()
    })
}

/// What `semver::Version::parse` makes of a text: the parts of the version,
/// or `None` where it reports an error.
pub uninterp spec fn semver_parse(text: Seq<char>) -> Option<SemVerParts>;

/// The message that the error of `semver::Version::parse` on this text
/// displays (`to_string`), where the text is refused.
pub uninterp spec fn semver_error_text(text: Seq<char>) -> Seq<char>;

/// Whether `semver::Version`'s ordering (`<`) puts the version with parts `a`
/// before the one with parts `b`.
pub uninterp spec fn semver_precedes(a: SemVerParts, b: SemVerParts) -> bool;

/// A version is canonical when its own text parses back to it; every version
/// that `semver::Version::parse` returns is.
pub open spec fn semver_canonical(v: SemVerParts) -> bool {
    semver_parse(semver_text(v)) == Some(v)
}

/// Calls `semver::Version::parse` and hands back the parsed fields as plain
/// values, or the error's message.
///
/// Trusted claims, read from the crate's `parse.rs` and `display.rs`: the
/// result is `semver_parse` of the text, and the message is
/// `semver_error_text` of it; a text that is empty or does not begin with an
/// ASCII digit is refused (the major number is read first and must have a
/// digit); and the text that `Display` writes for a parsed version parses
/// back to the same version.
#[verifier::external_body]
pub(crate) fn semver_parse_parts(text: &str) -> (res: Result<(u64, u64, u64, String, String), String>)
    ensures
        match res {
            Ok(p) => semver_parse(text@) == Some((p.0, p.1, p.2, p.3@, p.4@)),
            Err(m) => semver_parse(text@) is None && m@ == semver_error_text(text@),
        },
        res matches Ok(p) ==> semver_canonical((p.0, p.1, p.2, p.3@, p.4@)),
        (text@.len() == 0 || !is_ascii_digit(text@[0])) ==> res is Err,
{
    match semver::Version::parse(text) {
        Ok(v) => Ok((v.major, v.minor, v.patch, v.pre.as_str().to_string(), v.build.as_str().to_string())),
        Err(e) => Err(e.to_string()),
    }
}

/// Calls `<` on two `semver::Version` values rebuilt from canonical parts.
///
/// Trusted claims: the result is `semver_precedes` of the two; and, as `Ord`
/// makes the order total and consistent with equality (`semver::Version`
/// derives `Eq` and `Ord` over its fields), a version never precedes itself,
/// two versions are never each before the other, of two different versions
/// one precedes the other, and the order is transitive (what comes before
/// `a` comes before `b` when `a` does). Rebuilding the pre-release and build
/// parts cannot fail: canonical parts came out of `semver::Version::parse`,
/// whose identifiers `Prerelease::new` and `BuildMetadata::new` accept.
#[verifier::external_body]
pub(crate) fn semver_lt(
    a: (u64, u64, u64, &str, &str),
    b: (u64, u64, u64, &str, &str),
) -> (res: bool)
    requires
        semver_canonical((a.0, a.1, a.2, a.3@, a.4@)),
        semver_canonical((b.0, b.1, b.2, b.3@, b.4@)),
    ensures
        res == semver_precedes((a.0, a.1, a.2, a.3@, a.4@), (b.0, b.1, b.2, b.3@, b.4@)),
        (a.0, a.1, a.2, a.3@, a.4@) == (b.0, b.1, b.2, b.3@, b.4@) ==> !res,
        res ==> !semver_precedes((b.0, b.1, b.2, b.3@, b.4@), (a.0, a.1, a.2, a.3@, a.4@)),
        !res ==> ((a.0, a.1, a.2, a.3@, a.4@) == (b.0, b.1, b.2, b.3@, b.4@) || semver_precedes(
            (b.0, b.1, b.2, b.3@, b.4@),
            (a.0, a.1, a.2, a.3@, a.4@),
        )),
        res ==> forall|c: SemVerParts|
            semver_canonical(c) && semver_precedes(c, (a.0, a.1, a.2, a.3@, a.4@)) ==> semver_precedes(
                c,
                (b.0, b.1, b.2, b.3@, b.4@),
            ),
{
    let x = semver::Version {
        major: a.0, minor: a.1, patch: a.2,
        pre: semver::Prerelease::new(a.3).unwrap(), build: semver::BuildMetadata::new(a.4).unwrap(),
    };
    let y = semver::Version {
        major: b.0, minor: b.1, patch: b.2,
        pre: semver::Prerelease::new(b.3).unwrap(), build: semver::BuildMetadata::new(b.4).unwrap(),
    };
    x < y
}

} // verus!
