//! What can end a supervisor cycle, and how each failure reads.

use vstd::prelude::*;
use vstd::string::*;

verus! {

/// A failure of the supervisor.
#[derive(Debug)]
pub enum CvmError {
    UnableToCompareVersions { old: String, new: String },
    LatestVersionNotFound { current_version: String },
    TemporaryDirectoryFailedToCreate { message: String },
    NewVersionDownloadFailed { message: String },
    /// The child ended during startup verification; `status` is its exit status as the
    /// operating system words it.
    ProcessExitEarly { status: String },
    ProcessFailedToStart { message: String },
    ShutdownFailed { message: String },
    ServerUnreachable { message: String },
    SerializingClientDetailsFailed { message: String },
}

/// How a failure reads: a fixed lead for its kind, then what it carries.
pub open spec fn error_text(e: CvmError) -> Seq<char> {
    match e {
        CvmError::UnableToCompareVersions { old, new } =>
            "Unable to compare old and new version: old version: "@ + old@
                + " | new version: "@ + new@,
        CvmError::LatestVersionNotFound { current_version } =>
            "Latest version not found: currently running: "@ + current_version@,
        CvmError::TemporaryDirectoryFailedToCreate { message } =>
            "Unable to create temporary directory: "@ + message@,
        CvmError::NewVersionDownloadFailed { message } => "Unable to download new version: "@
            + message@,
        CvmError::ProcessExitEarly { status } => "Exited with status code: "@ + status@,
        CvmError::ProcessFailedToStart { message } => "Unable to start process: "@ + message@,
        CvmError::ServerUnreachable { message } => "Update server error: "@ + message@,
        CvmError::SerializingClientDetailsFailed { message } =>
            "Unable to serialize client details: "@ + message@,
        CvmError::ShutdownFailed { message } => "Shutdown process failed: "@ + message@,
    }
}

impl CvmError {
    /// The text of this failure.
    pub fn message(&self) -> (r: String)
        ensures
            r@ == error_text(*self),
    {
        match self {
            CvmError::UnableToCompareVersions { old, new } => {
                let mut r = String::from_str(
                    "Unable to compare old and new version: old version: ",
                );
                r.append(old.as_str());
                r.append(" | new version: ");
                r.append(new.as_str());
                r
            },
            CvmError::LatestVersionNotFound { current_version } => {
                let mut r = String::from_str("Latest version not found: currently running: ");
                r.append(current_version.as_str());
                r
            },
            CvmError::TemporaryDirectoryFailedToCreate { message } => {
                let mut r = String::from_str("Unable to create temporary directory: ");
                r.append(message.as_str());
                r
            },
            CvmError::NewVersionDownloadFailed { message } => {
                let mut r = String::from_str("Unable to download new version: ");
                r.append(message.as_str());
                r
            },
            CvmError::ProcessExitEarly { status } => {
                let mut r = String::from_str("Exited with status code: ");
                r.append(status.as_str());
                r
            },
            CvmError::ProcessFailedToStart { message } => {
                let mut r = String::from_str("Unable to start process: ");
                r.append(message.as_str());
                r
            },
            CvmError::ServerUnreachable { message } => {
                let mut r = String::from_str("Update server error: ");
                r.append(message.as_str());
                r
            },
            CvmError::SerializingClientDetailsFailed { message } => {
                let mut r = String::from_str("Unable to serialize client details: ");
                r.append(message.as_str());
                r
            },
            CvmError::ShutdownFailed { message } => {
                let mut r = String::from_str("Shutdown process failed: ");
                r.append(message.as_str());
                r
            },
        }
    }
}

/// The failure that an error on files stands for: no place for the download. Its
/// message is the error in its own words.
pub fn map_io_error(io_err: std::io::Error) -> (e: CvmError)
    ensures
        e matches CvmError::TemporaryDirectoryFailedToCreate { message }
            && to_string_from_display_ensures::<std::io::Error>(&io_err, message),
{
    CvmError::TemporaryDirectoryFailedToCreate { message: io_err.to_string() }
}

/// The failure that an error of a request stands for: the download did not arrive. Its
/// message is the error in its own words.
pub fn map_reqwuest_error(reqwuest_err: reqwest::Error) -> (e: CvmError)
    ensures
        e matches CvmError::NewVersionDownloadFailed { message }
            && to_string_from_display_ensures::<reqwest::Error>(&reqwuest_err, message),
{
    CvmError::NewVersionDownloadFailed { message: reqwuest_err.to_string() }
}

/// The failure that an error of serialization stands for: the details of the client
/// could not be written down. Its message is the error in its own words.
pub fn map_serialize_error(serde_err: serde_json::Error) -> (e: CvmError)
    ensures
        e matches CvmError::SerializingClientDetailsFailed { message }
            && to_string_from_display_ensures::<serde_json::Error>(&serde_err, message),
{
    CvmError::SerializingClientDetailsFailed { message: serde_err.to_string() }
}

} // verus!
