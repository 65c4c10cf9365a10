use arr_backup::api::{backups_endpoint, command_endpoint, trigger_command_body};
use arr_backup::backup::{Backup, BackupType};
use arr_backup::errors::{AcqError, ApiError, ExtractError, RunError};
use arr_backup::run::{
    backup_archive_rel_path, inner_main, pre_checks, run_initial, RunAction, RunEvent, RunState,
};

fn backup() -> Backup {
    Backup { id: 4, name: "b4.zip".to_string(), created_at: 1000, kind: BackupType::Manual }
}

#[test]
fn pre_checks_fail_in_order() {
    assert_eq!(pre_checks(false, false, false), Err(RunError::DestDirMissing));
    assert_eq!(pre_checks(true, false, false), Err(RunError::ConfigDirMissing));
    assert_eq!(pre_checks(true, true, false), Err(RunError::DestDirNotEmpty));
    assert_eq!(pre_checks(true, true, true), Ok(()));
}

#[test]
fn run_happy_path_with_deletion() {
    let (s0, a0) = run_initial();
    assert_eq!(a0, RunAction::DoChecks);
    let checked = RunEvent::Checked {
        dest_dir_exists: true,
        config_dir_exists: true,
        dest_dir_empty: true,
    };
    let (s1, a1) = inner_main(s0, checked, true);
    assert_eq!(s1, RunState::AwaitBackup);
    assert_eq!(a1, RunAction::DoAcquire);

    let (s2, a2) = inner_main(s1, RunEvent::Acquired { outcome: Ok(backup()) }, true);
    assert_eq!(s2, RunState::AwaitExtract { backup: backup() });
    assert_eq!(a2, RunAction::DoExtract);

    let (s3, a3) = inner_main(s2, RunEvent::Extracted { outcome: Ok(()) }, true);
    assert_eq!(s3, RunState::AwaitDelete { backup: backup() });
    assert_eq!(a3, RunAction::DoDelete);

    let (s4, a4) = inner_main(s3, RunEvent::Deleted { outcome: Ok(()) }, true);
    assert_eq!(s4, RunState::Finished { backup: backup() });
    assert_eq!(a4, RunAction::Stop);
}

#[test]
fn run_skips_deletion_when_not_asked() {
    let s = RunState::AwaitExtract { backup: backup() };
    let (s1, a1) = inner_main(s, RunEvent::Extracted { outcome: Ok(()) }, false);
    assert_eq!(s1, RunState::Finished { backup: backup() });
    assert_eq!(a1, RunAction::Stop);
}

#[test]
fn failed_precondition_fails_run() {
    let (s0, _) = run_initial();
    let checked = RunEvent::Checked {
        dest_dir_exists: true,
        config_dir_exists: true,
        dest_dir_empty: false,
    };
    let (s1, a1) = inner_main(s0, checked, true);
    assert_eq!(s1, RunState::Failed { err: RunError::DestDirNotEmpty });
    assert_eq!(a1, RunAction::Stop);
}

#[test]
fn failed_acquisition_fails_run() {
    let (s, a) = inner_main(
        RunState::AwaitBackup,
        RunEvent::Acquired { outcome: Err(AcqError::Timeout) },
        true,
    );
    assert_eq!(
        s,
        RunState::Failed { err: RunError::Acquisition { acq: AcqError::Timeout } }
    );
    assert_eq!(a, RunAction::Stop);
}

#[test]
fn failed_extraction_fails_run() {
    let (s, a) = inner_main(
        RunState::AwaitExtract { backup: backup() },
        RunEvent::Extracted { outcome: Err(ExtractError::SymlinkEncountered) },
        true,
    );
    assert_eq!(
        s,
        RunState::Failed {
            err: RunError::Extraction { extract: ExtractError::SymlinkEncountered },
        }
    );
    assert_eq!(a, RunAction::Stop);
}

#[test]
fn filesystem_failure_during_extraction_fails_run() {
    let (s, a) = inner_main(
        RunState::AwaitExtract { backup: backup() },
        RunEvent::Extracted { outcome: Err(ExtractError::Io) },
        false,
    );
    assert_eq!(
        s,
        RunState::Failed { err: RunError::Extraction { extract: ExtractError::Io } }
    );
    assert_eq!(a, RunAction::Stop);
}

#[test]
fn failed_deletion_still_fails_run() {
    let (s, a) = inner_main(
        RunState::AwaitDelete { backup: backup() },
        RunEvent::Deleted { outcome: Err(ApiError::Server { status: 404 }) },
        true,
    );
    assert_eq!(
        s,
        RunState::Failed {
            err: RunError::DeleteFailed { delete: ApiError::Server { status: 404 } },
        }
    );
    assert_eq!(a, RunAction::Stop);
}

#[test]
fn endpoints_and_trigger_body_are_fixed() {
    let base = "http://server:8989".to_string();
    assert_eq!(
        backups_endpoint(&base),
        "http://server:8989/api/v3/system/backup".to_string()
    );
    assert_eq!(command_endpoint(&base), "http://server:8989/api/v3/command".to_string());
    assert_eq!(trigger_command_body(), "{\"name\": \"Backup\"}".to_string());
}

#[test]
fn backup_archive_lies_under_manual_backups() {
    let name = "b4.zip".to_string();
    assert_eq!(backup_archive_rel_path(&name), "Backups/manual/b4.zip".to_string());
}
