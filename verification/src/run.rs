//! The run as a whole: check the preconditions, acquire a fresh backup,
//! extract it, optionally delete the remote copy. The decisions are a state
//! machine over plain observations; the surrounding program performs the
//! filesystem and network work and feeds the outcomes back in.

use vstd::prelude::*;
use vstd::string::StringExecFns;

use crate::backup::Backup;
use crate::errors::{AcqError, ApiError, ExtractError, RunError};

verus! {

/// Where the run stands.
#[derive(Debug, PartialEq, Eq)]
pub enum RunState {
    /// Waiting for the up-front directory checks.
    AwaitChecks,
    /// Waiting for the acquisition machine's verdict.
    AwaitBackup,
    /// Waiting for the resolved backup's archive to be extracted.
    AwaitExtract { backup: Backup },
    /// Waiting for the remote backup to be deleted.
    AwaitDelete { backup: Backup },
    /// Terminal: the run succeeded with this backup.
    Finished { backup: Backup },
    /// Terminal: the run failed.
    Failed { err: RunError },
}

/// What the driver observed.
#[derive(Debug)]
pub enum RunEvent {
    /// The up-front directory observations: whether the destination
    /// directory exists, whether the server's configuration directory
    /// exists, and whether the destination is empty.
    Checked { dest_dir_exists: bool, config_dir_exists: bool, dest_dir_empty: bool },
    /// The acquisition machine ended with this verdict.
    Acquired { outcome: Result<Backup, AcqError> },
    /// Extracting the archive ended with this verdict.
    Extracted { outcome: Result<(), ExtractError> },
    /// Deleting the remote backup ended with this verdict.
    Deleted { outcome: Result<(), ApiError> },
}

/// What the driver must do next.
#[derive(Clone, Copy, Debug, PartialEq, Eq, Structural)]
pub enum RunAction {
    /// Observe the two directories and report `Checked`.
    DoChecks,
    /// Drive the acquisition machine to its end and report `Acquired`.
    DoAcquire,
    /// Extract the resolved backup's archive and report `Extracted`.
    DoExtract,
    /// Delete the remote backup and report `Deleted`.
    DoDelete,
    /// The run is over; stop.
    Stop,
}

/// Whether the run may proceed: the destination directory must exist, the
/// server's configuration directory must exist, and the destination must be
/// empty, tested in that order.
pub open spec fn pre_checks_spec(
    dest_dir_exists: bool,
    config_dir_exists: bool,
    dest_dir_empty: bool,
) -> Result<(), RunError> {
    if !dest_dir_exists {
        Err(RunError::DestDirMissing)
    } else if !config_dir_exists {
        Err(RunError::ConfigDirMissing)
    } else if !dest_dir_empty {
        Err(RunError::DestDirNotEmpty)
    } else {
        Ok(())
    }
}

/// Checks the run's preconditions over the driver's directory observations,
/// failing fast before any network or further file activity.
pub fn pre_checks(dest_dir_exists: bool, config_dir_exists: bool, dest_dir_empty: bool) -> (r:
    Result<(), RunError>)
    ensures
        r == pre_checks_spec(dest_dir_exists, config_dir_exists, dest_dir_empty),
{
    if !dest_dir_exists {
        Err(RunError::DestDirMissing)
    } else if !config_dir_exists {
        Err(RunError::ConfigDirMissing)
    } else if !dest_dir_empty {
        Err(RunError::DestDirNotEmpty)
    } else {
        Ok(())
    }
}

/// One transition of the run. Every failure is terminal: a failed deletion
/// still fails the run, though the extracted copy stays in place. An event
/// the current state does not expect leaves the state as it is and stops the
/// driver.
pub open spec fn inner_main_spec(state: RunState, event: RunEvent, delete_backup: bool) -> (
    RunState,
    RunAction,
) {
    match (state, event) {
        (
            RunState::AwaitChecks,
            RunEvent::Checked { dest_dir_exists, config_dir_exists, dest_dir_empty },
        ) => {
            match pre_checks_spec(dest_dir_exists, config_dir_exists, dest_dir_empty) {
                Ok(_) => (RunState::AwaitBackup, RunAction::DoAcquire),
                Err(err) => (RunState::Failed { err }, RunAction::Stop),
            }
        },
        (RunState::AwaitBackup, RunEvent::Acquired { outcome }) => {
            match outcome {
                Ok(backup) => (RunState::AwaitExtract { backup }, RunAction::DoExtract),
                Err(acq) => (
                    RunState::Failed { err: RunError::Acquisition { acq } },
                    RunAction::Stop,
                ),
            }
        },
        (RunState::AwaitExtract { backup }, RunEvent::Extracted { outcome }) => {
            match outcome {
                Ok(_) => if delete_backup {
                    (RunState::AwaitDelete { backup }, RunAction::DoDelete)
                } else {
                    (RunState::Finished { backup }, RunAction::Stop)
                },
                Err(extract) => (
                    RunState::Failed { err: RunError::Extraction { extract } },
                    RunAction::Stop,
                ),
            }
        },
        (RunState::AwaitDelete { backup }, RunEvent::Deleted { outcome }) => {
            match outcome {
                Ok(_) => (RunState::Finished { backup }, RunAction::Stop),
                Err(delete) => (
                    RunState::Failed { err: RunError::DeleteFailed { delete } },
                    RunAction::Stop,
                ),
            }
        },
        (s, _) => (s, RunAction::Stop),
    }
}

/// Where a manual backup archive lies under the server's own configuration
/// directory, relative to that directory.
pub fn backup_archive_rel_path(name: &String) -> (r: String)
    ensures
        r@ == "Backups/manual/"@ + name@,
{
    let mut p = String::from_str("Backups/manual/");
    p.append(name.as_str());
    p
}

/// The run starts with the up-front directory checks.
pub fn run_initial() -> (r: (RunState, RunAction))
    ensures
        r.0 == RunState::AwaitChecks,
        r.1 == RunAction::DoChecks,
{
    (RunState::AwaitChecks, RunAction::DoChecks)
}

/// One transition of the run: from the current state and the observed event
/// to the next state and the driver's next task. `delete_backup` says whether
/// a successful extraction is followed by deleting the remote copy.
pub fn inner_main(state: RunState, event: RunEvent, delete_backup: bool) -> (r: (
    RunState,
    RunAction,
))
    ensures
        r == inner_main_spec(state, event, delete_backup),
{
    match (state, event) {
        (
            RunState::AwaitChecks,
            RunEvent::Checked { dest_dir_exists, config_dir_exists, dest_dir_empty },
        ) => {
            match pre_checks(dest_dir_exists, config_dir_exists, dest_dir_empty) {
                Ok(_) => (RunState::AwaitBackup, RunAction::DoAcquire),
                Err(err) => (RunState::Failed { err }, RunAction::Stop),
            }
        },
        (RunState::AwaitBackup, RunEvent::Acquired { outcome }) => {
            match outcome {
                Ok(backup) => (RunState::AwaitExtract { backup }, RunAction::DoExtract),
                Err(acq) => (
                    RunState::Failed { err: RunError::Acquisition { acq } },
                    RunAction::Stop,
                ),
            }
        },
        (RunState::AwaitExtract { backup }, RunEvent::Extracted { outcome }) => {
            match outcome {
                Ok(_) => if delete_backup {
                    (RunState::AwaitDelete { backup }, RunAction::DoDelete)
                } else {
                    (RunState::Finished { backup }, RunAction::Stop)
                },
                Err(extract) => (
                    RunState::Failed { err: RunError::Extraction { extract } },
                    RunAction::Stop,
                ),
            }
        },
        (RunState::AwaitDelete { backup }, RunEvent::Deleted { outcome }) => {
            match outcome {
                Ok(_) => (RunState::Finished { backup }, RunAction::Stop),
                Err(delete) => (
                    RunState::Failed { err: RunError::DeleteFailed { delete } },
                    RunAction::Stop,
                ),
            }
        },
        (s, _) => (s, RunAction::Stop),
    }
}

} // verus!
