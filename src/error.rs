//! The ways an update attempt can end other than in success.

use vstd::prelude::*;

verus! {

/// Why an update attempt stopped without replacing the executable.
#[derive(Clone, Copy, Debug, PartialEq, Eq, Structural)]
pub enum UpdateError {
    /// No release exists, or none carries the requested tag.
    NotFound,
    /// A version string is not a semantic version.
    InvalidVersion,
    /// The release offers no archive for this platform.
    NoAsset,
    /// The archive could not be fetched or written to disk.
    Download,
    /// The binary entry could not be extracted from the archive.
    Extraction,
    /// The running executable could not be swapped.
    Replace,
    /// The user declined at the confirmation prompt.
    UserCancelled,
    /// The install is managed by a package manager; self-replacement is refused.
    Refused,
    /// An event arrived that the current phase does not expect.
    OutOfSequence,
}

impl UpdateError {
    /// Whether this ending is an expected one (a decision) rather than a defect.
    pub open spec fn is_expected_spec(self) -> bool {
        self == UpdateError::UserCancelled || self == UpdateError::Refused
    }

    /// Whether this ending is an expected one (a decision) rather than a defect.
    pub fn is_expected(&self) -> (r: bool)
        ensures
            r == self.is_expected_spec(),
    {
        match self {
            UpdateError::UserCancelled | UpdateError::Refused => true,
            _ => false,
        }
    }
}

} // verus!
