//! The kinds of failure of an install attempt.

use vstd::prelude::*;
use vstd::string::*;

verus! {

/// Why a step of an install attempt did not succeed.
#[derive(Clone, Copy, Debug, PartialEq, Eq, Structural)]
pub enum InstallError {
    /// The release feed or the asset could not be fetched.
    NetworkError,
    /// The release metadata was malformed.
    ParseError,
    /// No asset of the release matches the requested variant.
    NoMatchingAsset,
    /// A local read, write or permission failure.
    IoError,
    /// The archive is corrupt or uses an unsupported compression.
    ArchiveError,
    /// The user asked to abort.
    Cancelled,
    /// The worker ended without reporting how the attempt went.
    Internal,
}

impl InstallError {
    /// The text shown to the user for this kind of failure.
    pub open spec fn description(self) -> Seq<char> {
        match self {
            InstallError::NetworkError => "Network error: the release could not be fetched"@,
            InstallError::ParseError => "Parse error: the release data is malformed"@,
            InstallError::NoMatchingAsset => "No matching asset: the release has no file for the selected version"@,
            InstallError::IoError => "I/O error: a file could not be read or written"@,
            InstallError::ArchiveError => "Archive error: the downloaded archive is damaged"@,
            InstallError::Cancelled => "Cancelled: the installation was aborted"@,
            InstallError::Internal => "Internal error: the installation ended unexpectedly"@,
        }
    }

    /// Whether this is the quiet stop that follows a request to abort.
    pub fn is_cancelled(&self) -> (b: bool)
        ensures
            b == (*self == InstallError::Cancelled),
    {
        matches!(self, InstallError::Cancelled)
    }

    /// A human-readable description for the presentation layer.
    pub fn describe(&self) -> (text: String)
        ensures
            text@ == self.description(),
    {
        match self {
            InstallError::NetworkError => String::from_str(
                "Network error: the release could not be fetched",
            ),
            InstallError::ParseError => String::from_str(
                "Parse error: the release data is malformed",
            ),
            InstallError::NoMatchingAsset => String::from_str(
                "No matching asset: the release has no file for the selected version",
            ),
            InstallError::IoError => String::from_str(
                "I/O error: a file could not be read or written",
            ),
            InstallError::ArchiveError => String::from_str(
                "Archive error: the downloaded archive is damaged",
            ),
            InstallError::Cancelled => String::from_str("Cancelled: the installation was aborted"),
            InstallError::Internal => String::from_str(
                "Internal error: the installation ended unexpectedly",
            ),
        }
    }
}

} // verus!
