//! Installation decisions: what failing means at each step, whether a
//! download is needed at all, and how a download response is accepted. The
//! network and the filesystem stay with the caller; every decision between
//! them is taken here.
use vstd::prelude::*;
use crate::descriptor::{archive_name, archive_name_spec, download_url, download_url_spec};
use crate::platform::{artifact_for, artifact_identifier, binary_filename, binary_name_for};

verus! {

/// Everything that can make the installation fail. Each fatal condition of
/// the routine has exactly one variant.
#[derive(Clone, Copy, PartialEq, Eq, Structural, Debug)]
pub enum InstallError {
    /// The (OS, architecture, libc) combination has no published build.
    UnsupportedPlatform,
    /// The download request could not be made at all.
    RequestFailed,
    /// The download call returned a non-success status.
    ResponseNotSuccess,
    /// The response body could not be read.
    ReadBodyFailed,
    /// The downloaded archive could not be written to the working directory.
    SaveArchiveFailed,
    /// The downloaded bytes are not a readable zip archive.
    ArchiveUnreadable,
    /// An extracted file could not be created or written.
    EntryWriteFailed,
    /// The host-provided base URI could not be parsed or joined.
    HostUriInvalid,
}

impl InstallError {
    /// The user-visible message for this failure.
    pub fn message(&self) -> (r: &'static str)
        ensures
            r@ == self.message_spec(),
    {
        match self {
            InstallError::UnsupportedPlatform => "Unsupported OS/Arch/Libc",
            InstallError::RequestFailed => "Failed to request download artifact!",
            InstallError::ResponseNotSuccess => "Download artifact request was not successful!",
            InstallError::ReadBodyFailed => "Failed to read download artifact",
            InstallError::SaveArchiveFailed => "Failed to write artifact to filesystem!",
            InstallError::ArchiveUnreadable => "Failed to create zip overlay!",
            InstallError::EntryWriteFailed => "Failed to write extracted file!",
            InstallError::HostUriInvalid => "Failed to parse URL!",
        }
    }

    /// The message each variant carries.
    pub open spec fn message_spec(&self) -> Seq<char> {
        match self {
            InstallError::UnsupportedPlatform => "Unsupported OS/Arch/Libc"@,
            InstallError::RequestFailed => "Failed to request download artifact!"@,
            InstallError::ResponseNotSuccess => "Download artifact request was not successful!"@,
            InstallError::ReadBodyFailed => "Failed to read download artifact"@,
            InstallError::SaveArchiveFailed => "Failed to write artifact to filesystem!"@,
            InstallError::ArchiveUnreadable => "Failed to create zip overlay!"@,
            InstallError::EntryWriteFailed => "Failed to write extracted file!"@,
            InstallError::HostUriInvalid => "Failed to parse URL!"@,
        }
    }
}

/// What the caller must do to have the server binary on disk.
#[derive(Debug, PartialEq, Eq)]
pub enum DownloadPlan {
    /// The binary already exists in the working directory; nothing to fetch.
    AlreadyInstalled { binary: &'static str },
    /// Fetch `url`, save it under `archive`, extract it, remove the archive.
    Fetch { binary: &'static str, archive: String, url: String },
}

/// Decides the download step from the platform triple and whether the
/// platform's binary filename already exists in the working directory. An
/// existing binary short-circuits everything, even an unsupported platform;
/// otherwise an unsupported platform fails closed, and a supported one names
/// the exact archive and URL to fetch.
pub fn download_plan(os: &str, arch: &str, libc: &str, binary_exists: bool) -> (r: Result<
    DownloadPlan,
    InstallError,
>)
    ensures
        binary_exists ==> (r matches Ok(DownloadPlan::AlreadyInstalled { binary }) && binary@
            == binary_name_for(os@)),
        !binary_exists && artifact_for(os@, arch@, libc@) is None ==> r == Err::<
            DownloadPlan,
            InstallError,
        >(InstallError::UnsupportedPlatform),
        (!binary_exists && artifact_for(os@, arch@, libc@) is Some) ==> (r matches Ok(
            DownloadPlan::Fetch { binary, archive, url },
        ) && binary@ == binary_name_for(os@) && archive@ == archive_name_spec(
            artifact_for(os@, arch@, libc@)->0,
        ) && url@ == download_url_spec(artifact_for(os@, arch@, libc@)->0)),
{
    let binary = binary_filename(os);
    if binary_exists {
        return Ok(DownloadPlan::AlreadyInstalled { binary });
    }
    match artifact_identifier(os, arch, libc) {
        Some(artifact) => {
            let archive = archive_name(artifact);
            let url = download_url(artifact);
            Ok(DownloadPlan::Fetch { binary, archive, url })
        },
        None => Err(InstallError::UnsupportedPlatform),
    }
}

/// Accepts a download response: the body passes through untouched on a
/// success status; a non-success status fails the installation, and nothing
/// of the body is kept.
pub fn validate_response(status_success: bool, body: Vec<u8>) -> (r: Result<Vec<u8>, InstallError>)
    ensures
        status_success ==> (r matches Ok(b) && b@ == body@),
        !status_success ==> r == Err::<Vec<u8>, InstallError>(InstallError::ResponseNotSuccess),
{
    if status_success {
        Ok(body)
    } else {
        Err(InstallError::ResponseNotSuccess)
    }
}

} // verus!
