//! Comparison of the running version with a candidate release version.

use vstd::prelude::*;
use crate::error::UpdateError;

verus! {

/// `self_update::errors::Error`, the error of the version checks, carried
/// opaquely and mapped to `UpdateError::InvalidVersion`.
#[verifier::external_type_specification]
#[verifier::external_body]
pub struct ExSelfUpdateError(self_update::errors::Error);

/// What `self_update::version::bump_is_greater` yields on two version
/// strings: `None` where either does not parse as a semantic version, else
/// whether the candidate orders strictly above the current version.
pub uninterp spec fn semver_greater(current: Seq<char>, candidate: Seq<char>) -> Option<bool>;

/// What `self_update::version::bump_is_compatible` yields on two version
/// strings: `None` where either does not parse, else whether the bump stays
/// within the compatibility range of the current version.
pub uninterp spec fn semver_compatible(current: Seq<char>, candidate: Seq<char>) -> Option<bool>;

/// Relies on `self_update::version::bump_is_greater`: parses both strings with
/// `semver::Version::parse` and compares them with `>`, so equal strings are
/// never greater.
#[verifier::external_body]
fn bump_is_greater(current: &str, candidate: &str) -> (r: Result<bool, self_update::errors::Error>)
    ensures
        r is Ok <==> semver_greater(current@, candidate@) is Some,
        r matches Ok(b) ==> semver_greater(current@, candidate@) == Some(b),
        current@ == candidate@ ==> !(r matches Ok(true)),
{
    self_update::version::bump_is_greater(current, candidate)
}

/// Relies on `self_update::version::bump_is_compatible`: parses both strings
/// and decides whether the bump is a compatible one.
#[verifier::external_body]
fn bump_is_compatible(current: &str, candidate: &str) -> (r: Result<bool, self_update::errors::Error>)
    ensures
        r is Ok <==> semver_compatible(current@, candidate@) is Some,
        r matches Ok(b) ==> semver_compatible(current@, candidate@) == Some(b),
{
    self_update::version::bump_is_compatible(current, candidate)
}

/// How a candidate version relates to the current one.
#[derive(Clone, Copy, Debug, PartialEq, Eq, Structural)]
pub struct VersionComparison {
    /// The candidate orders strictly above the current version.
    pub is_greater: bool,
    /// The bump stays within semantic-version compatibility.
    pub is_compatible: bool,
}

/// Both comparisons are defined on this pair of version strings.
pub open spec fn comparable(current: Seq<char>, candidate: Seq<char>) -> bool {
    semver_greater(current, candidate) is Some && semver_compatible(current, candidate) is Some
}

/// Compares `candidate` against `current`. Fails with `InvalidVersion`
/// exactly when one of the two is not a semantic version.
pub fn compare_versions(current: &str, candidate: &str) -> (r: Result<VersionComparison, UpdateError>)
    ensures
        r is Ok <==> comparable(current@, candidate@),
        r matches Ok(c) ==> Some(c.is_greater) == semver_greater(current@, candidate@)
            && Some(c.is_compatible) == semver_compatible(current@, candidate@),
        r matches Err(e) ==> e == UpdateError::InvalidVersion,
        current@ == candidate@ ==> !(r matches Ok(c) && c.is_greater),
{
    let is_greater = match bump_is_greater(current, candidate) {
        Ok(b) => b,
        Err(_) => return Err(UpdateError::InvalidVersion),
    };
    match bump_is_compatible(current, candidate) {
        Ok(is_compatible) => Ok(VersionComparison { is_greater, is_compatible }),
        Err(_) => Err(UpdateError::InvalidVersion),
    }
}

} // verus!
