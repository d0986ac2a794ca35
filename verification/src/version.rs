//! Semantic versions, parsed and ordered by the `semver` crate.

use vstd::prelude::*;

verus! {

#[verifier::external_type_specification]
#[verifier::external_body]
pub struct ExSemverVersion(semver::Version);

/// The components of a semantic version: major, minor, patch, the
/// pre-release text and the build-metadata text.
pub type VersionParts = (u64, u64, u64, Seq<char>, Seq<char>);

/// What `semver::Version::parse` yields for a text: `None` where it returns
/// an error, otherwise the components of the version it returns.
pub uninterp spec fn semver_parse(text: Seq<char>) -> Option<VersionParts>;

/// Whether `a > b` holds for the `semver::Version` values with components
/// `a` and `b` (the crate's total order).
pub uninterp spec fn semver_greater(a: VersionParts, b: VersionParts) -> bool;

/// The version `0.0.0`, with empty pre-release and build metadata.
pub open spec fn zero_parts() -> VersionParts {
    (0u64, 0u64, 0u64, Seq::<char>::empty(), Seq::<char>::empty())
}

/// `(major, minor, patch)` of `a` is lexicographically greater than that of `b`.
pub open spec fn core_greater(a: VersionParts, b: VersionParts) -> bool {
    ||| a.0 > b.0
    ||| a.0 == b.0 && a.1 > b.1
    ||| a.0 == b.0 && a.1 == b.1 && a.2 > b.2
}

/// `a` and `b` agree on major, minor and patch.
pub open spec fn core_equal(a: VersionParts, b: VersionParts) -> bool {
    a.0 == b.0 && a.1 == b.1 && a.2 == b.2
}

/// A semantic version. The fields hold its components; `inner` is the
/// `semver` value they were read from, used for ordering. Values are made only
/// by `parse_version` and `zero_version`, which fill both from one
/// `semver::Version`.
pub struct SemVer {
    major: u64,
    minor: u64,
    patch: u64,
    pre: String,
    build: String,
    inner: semver::Version,
}

impl View for SemVer {
    type V = VersionParts;

    closed spec fn view(&self) -> VersionParts {
        (self.major, self.minor, self.patch, self.pre@, self.build@)
    }
}

/// Calls `semver::Version::parse` and keeps the components of the version it
/// returns. Trusted: the result is `semver_parse` of the text, and the
/// components are read from the parsed value's public fields and the texts of
/// its `pre` and `build`.
#[verifier::external_body]
pub fn parse_version(text: &str) -> (r: Option<SemVer>)
    ensures
        match r {
            Some(v) => semver_parse(text@) == Some(v@),
            None => semver_parse(text@) is None,
        },
{
    let v = semver::Version::parse(text).ok()?;
    Some(SemVer {
        major: v.major,
        minor: v.minor,
        patch: v.patch,
        pre: v.pre.as_str().to_string(),
        build: v.build.as_str().to_string(),
        inner: v,
    })
}

/// Calls `semver::Version::new(0, 0, 0)`. Trusted: its documentation says it
/// builds the version with those numbers and empty pre-release and build
/// metadata.
#[verifier::external_body]
pub fn zero_version() -> (r: SemVer)
    ensures
        r@ == zero_parts(),
{
    let v = semver::Version::new(0, 0, 0);
    SemVer {
        major: v.major,
        minor: v.minor,
        patch: v.patch,
        pre: v.pre.as_str().to_string(),
        build: v.build.as_str().to_string(),
        inner: v,
    }
}

/// Evaluates `a > b` on the two `semver::Version` values. Trusted: the result
/// is `semver_greater` of the components; the crate documents a total order
/// that compares major, minor and patch numerically as a triple first, and,
/// where those agree, puts a pre-release below the ordinary release; a strict
/// order never holds between equal versions. How two pre-releases, or two
/// build metadata texts, compare is left to the name.
#[verifier::external_body]
pub fn is_newer(a: &SemVer, b: &SemVer) -> (r: bool)
    ensures
        r == semver_greater(a@, b@),
        core_greater(a@, b@) ==> r,
        core_greater(b@, a@) ==> !r,
        a@ == b@ ==> !r,
        core_equal(a@, b@) && a@.3.len() == 0 && b@.3.len() > 0 ==> r,
        core_equal(a@, b@) && a@.3.len() > 0 && b@.3.len() == 0 ==> !r,
{
    a.inner > b.inner
}

} // verus!
