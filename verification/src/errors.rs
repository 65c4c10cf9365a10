//! Error taxonomy: every failure a run can end with, each kind terminal for
//! the current run.

use vstd::prelude::*;

verus! {

/// A failure of one HTTP call against the server's API.
#[derive(Clone, Copy, Debug, PartialEq, Eq, Structural)]
pub enum ApiError {
    /// Network or connection failure reaching the API.
    Transport,
    /// Non-success HTTP status from the API.
    Server { status: u16 },
    /// Response body does not match the expected backup-record shape.
    Decode,
}

/// A failure of the backup-acquisition state machine.
#[derive(Clone, Copy, Debug, PartialEq, Eq, Structural)]
pub enum AcqError {
    /// An API call failed; acquisition aborts at once.
    Api { err: ApiError },
    /// No fresh manual backup appeared within the bounded wait.
    Timeout,
}

/// A failure while turning an archive into filesystem actions, or while
/// carrying those actions out.
#[derive(Clone, Copy, Debug, PartialEq, Eq, Structural)]
pub enum ExtractError {
    /// The bytes are not a readable archive, or an entry cannot be decoded.
    BadArchive,
    /// An entry's path is absent, absolute, or would resolve outside the
    /// destination directory.
    UnsafePath,
    /// The destination path for an entry already exists as a symbolic link.
    SymlinkEncountered,
    /// Local filesystem failure while creating a directory or writing a file.
    Io,
}

/// A failure of the whole run, as reported to the operator.
#[derive(Clone, Copy, Debug, PartialEq, Eq, Structural)]
pub enum RunError {
    /// Destination directory does not exist.
    DestDirMissing,
    /// Source configuration directory does not exist.
    ConfigDirMissing,
    /// Destination directory is not empty.
    DestDirNotEmpty,
    /// Acquiring a fresh backup failed.
    Acquisition { acq: AcqError },
    /// Extracting the backup archive failed.
    Extraction { extract: ExtractError },
    /// Deleting the remote backup after extraction failed; the run is
    /// reported as failed even though the local copy is in place.
    DeleteFailed { delete: ApiError },
}

} // verus!
