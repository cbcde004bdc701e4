//! Why an upgrade of the recovery partition ends without success.

use crate::checksum::ValidateError;
use crate::release::api::ApiError;
use crate::release::check::Unsupported;
use vstd::prelude::*;
use vstd::std_specs::convert::FromSpecImpl;

verus! {

/// Why the architecture of the machine could not be determined.
#[derive(Debug)]
pub struct ReleaseArchError {
    pub why: String,
}

/// The ways in which an upgrade of the recovery partition fails. Each kind
/// carries what is needed to tell what went wrong, and no two overlap.
#[derive(Debug)]
#[allow(inconsistent_fields)]
pub enum RecoveryError {
    /// The image named on the command line does not exist.
    IsoNotFound,
    /// The catalog did not describe the release.
    ApiError(ApiError),
    /// The image of the release could not be brought in; the cause is inside.
    Download(Box<RecoveryError>),
    /// No temporary directory could be made.
    TempDir(std::io::Error),
    /// An operation on a file, a mount or a process failed.
    Io(std::io::Error),
    /// The transfer of the image failed.
    Fetch { url: String, why: std::io::Error },
    /// The image has not the digest that was announced, or could not be held against it.
    Checksum { path: String, why: ValidateError },
    /// There is no recovery partition.
    RecoveryNotFound,
    /// There is no EFI partition.
    EfiNotFound,
    /// The disks could not be scanned for the recovery partition.
    Probe(std::io::Error),
    /// The architecture of the machine could not be determined.
    ReleaseArch(ReleaseArchError),
    /// The running release could not be read.
    ReleaseVersion(ubuntu_version::VersionError),
    /// The running release is outside the upgrade graph.
    UnsupportedRelease(Unsupported),
    /// The command exists in name only.
    NotImplemented,
}

/// A failure as contracts speak of it: texts by their characters, causes as
/// they came.
#[allow(inconsistent_fields)]
pub ghost enum Failure {
    IsoNotFound,
    ApiError(ApiError),
    Download(Box<Failure>),
    TempDir(std::io::Error),
    Io(std::io::Error),
    Fetch { url: Seq<char>, why: std::io::Error },
    Checksum { path: Seq<char>, why: ValidateError },
    RecoveryNotFound,
    EfiNotFound,
    Probe(std::io::Error),
    ReleaseArch(ReleaseArchError),
    ReleaseVersion(ubuntu_version::VersionError),
    UnsupportedRelease(Unsupported),
    NotImplemented,
}

impl RecoveryError {
    /// The failure that this value stands for.
    pub open spec fn failure(self) -> Failure
        decreases self,
    {
        match self {
            RecoveryError::IsoNotFound => Failure::IsoNotFound,
            RecoveryError::ApiError(why) => Failure::ApiError(why),
            RecoveryError::Download(why) => Failure::Download(Box::new((*why).failure())),
            RecoveryError::TempDir(why) => Failure::TempDir(why),
            RecoveryError::Io(why) => Failure::Io(why),
            RecoveryError::Fetch { url, why } => Failure::Fetch { url: url@, why },
            RecoveryError::Checksum { path, why } => Failure::Checksum { path: path@, why },
            RecoveryError::RecoveryNotFound => Failure::RecoveryNotFound,
            RecoveryError::EfiNotFound => Failure::EfiNotFound,
            RecoveryError::Probe(why) => Failure::Probe(why),
            RecoveryError::ReleaseArch(why) => Failure::ReleaseArch(why),
            RecoveryError::ReleaseVersion(why) => Failure::ReleaseVersion(why),
            RecoveryError::UnsupportedRelease(release) => Failure::UnsupportedRelease(release),
            RecoveryError::NotImplemented => Failure::NotImplemented,
        }
    }
}

impl View for RecoveryError {
    type V = Failure;

    open spec fn view(&self) -> Failure {
        self.failure()
    }
}

impl From<std::io::Error> for RecoveryError {
    fn from(why: std::io::Error) -> (error: RecoveryError) {
        RecoveryError::Io(why)
    }
}

impl FromSpecImpl<std::io::Error> for RecoveryError {
    open spec fn obeys_from_spec() -> bool {
        true
    }

    open spec fn from_spec(why: std::io::Error) -> RecoveryError {
        RecoveryError::Io(why)
    }
}

impl From<ubuntu_version::VersionError> for RecoveryError {
    fn from(why: ubuntu_version::VersionError) -> (error: RecoveryError) {
        RecoveryError::ReleaseVersion(why)
    }
}

impl FromSpecImpl<ubuntu_version::VersionError> for RecoveryError {
    open spec fn obeys_from_spec() -> bool {
        true
    }

    open spec fn from_spec(why: ubuntu_version::VersionError) -> RecoveryError {
        RecoveryError::ReleaseVersion(why)
    }
}

impl From<ReleaseArchError> for RecoveryError {
    fn from(why: ReleaseArchError) -> (error: RecoveryError) {
        RecoveryError::ReleaseArch(why)
    }
}

impl FromSpecImpl<ReleaseArchError> for RecoveryError {
    open spec fn obeys_from_spec() -> bool {
        true
    }

    open spec fn from_spec(why: ReleaseArchError) -> RecoveryError {
        RecoveryError::ReleaseArch(why)
    }
}

} // verus!
