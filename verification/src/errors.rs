//! Failure taxonomy of the pipeline. Every caller-visible failure keeps
//! enough structure to tell "needs re-authentication" from "transient
//! transport problem" from "bad input".

use vstd::prelude::*;

verus! {

/// Why establishing a session failed.
#[derive(Clone, Copy, Debug, PartialEq, Eq, Structural)]
pub enum AuthError {
    /// The persisted credential file was missing or unreadable: a
    /// configuration problem on the caller's side.
    Io,
    /// The platform rejected the presented credential: the caller needs
    /// to log in again.
    InvalidCredential,
    /// The QR challenge has not been confirmed yet.
    NotScanned,
    /// The QR challenge expired before it was confirmed.
    Expired,
    /// The SMS verification code was rejected.
    InvalidCode,
}

/// Why streaming one local file to remote storage failed.
#[derive(Clone, Copy, Debug, PartialEq, Eq, Structural)]
pub enum UploadError {
    /// The input file holds zero bytes; rejected before any network call.
    EmptyFile,
    /// A chunk upload failed unrecoverably; the remaining chunks of the
    /// file were aborted.
    ChunkTransportFailure,
    /// Reading or uploading the cover image failed.
    CoverUploadFailure,
}

/// Why finalizing the publish record failed.
#[derive(Clone, Copy, Debug, PartialEq, Eq, Structural)]
pub enum SubmissionError {
    /// The platform answered the submission with a non-zero status code:
    /// a semantic failure even though the transport call succeeded.
    NonZeroStatus { code: i64 },
    /// A success response lacked the published identifier field.
    MissingExpectedField,
}

/// Why a segmented download was aborted.
#[derive(Clone, Copy, Debug, PartialEq, Eq, Structural)]
pub enum DownloadError {
    /// The transport reported an unrecoverable error mid-stream.
    TransportFailure,
}

/// A failure of one end-to-end upload operation, tagged with the context
/// the caller needs to act on it: which step, and which path or file.
#[derive(Debug)]
pub enum FlowError {
    /// Authentication failed; `cookie_file` is the credential file the
    /// operation was opening.
    Auth { err: AuthError, cookie_file: String },
    /// Uploading one input failed; `path` names the local file (or, for a
    /// cover failure, the cover reference) concerned.
    Upload { err: UploadError, path: String },
    /// The final submission failed.
    Submission { err: SubmissionError },
}

} // verus!
