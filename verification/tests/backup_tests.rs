use arr_backup::backup::{backup_from_record, latest_manual, Backup, BackupType};
use arr_backup::errors::ApiError;

fn backup(id: u64, created_at: i64, kind: BackupType) -> Backup {
    Backup { id, name: format!("b{}.zip", id), created_at, kind }
}

#[test]
fn latest_manual_picks_maximum_created_at() {
    let backups = vec![
        backup(1, 100, BackupType::Manual),
        backup(2, 300, BackupType::Manual),
        backup(3, 200, BackupType::Manual),
    ];
    let r = latest_manual(&backups).unwrap();
    assert_eq!(r.id, 2);
    assert_eq!(r.created_at, 300);
}

#[test]
fn latest_manual_ignores_scheduled_entirely() {
    let backups = vec![
        backup(1, 100, BackupType::Manual),
        backup(2, 900, BackupType::Scheduled),
        backup(3, 50, BackupType::Manual),
    ];
    let r = latest_manual(&backups).unwrap();
    assert_eq!(r.id, 1);
}

#[test]
fn latest_manual_none_when_no_manual() {
    let backups = vec![
        backup(1, 100, BackupType::Scheduled),
        backup(2, 900, BackupType::Scheduled),
    ];
    assert!(latest_manual(&backups).is_none());
    assert!(latest_manual(&Vec::new()).is_none());
}

#[test]
fn latest_manual_tie_takes_last_observed() {
    let backups = vec![
        backup(7, 500, BackupType::Manual),
        backup(8, 500, BackupType::Manual),
    ];
    let r = latest_manual(&backups).unwrap();
    assert_eq!(r.id, 8);
}

#[test]
fn is_recent_strictly_below_threshold() {
    let b = backup(1, 1000, BackupType::Manual);
    assert!(b.is_recent(1000 + 1800, 3600));
    assert!(!b.is_recent(1000 + 3600, 3600));
    assert!(!b.is_recent(1000 + 7200, 3600));
}

#[test]
fn is_recent_negative_age_is_not_recent() {
    let b = backup(1, 5000, BackupType::Manual);
    assert!(!b.is_recent(4000, 3600));
}

#[test]
fn record_kinds_decode_exactly() {
    let manual = backup_from_record(1, "a.zip".to_string(), 100, &"manual".to_string());
    assert_eq!(
        manual,
        Ok(Backup {
            id: 1,
            name: "a.zip".to_string(),
            created_at: 100,
            kind: BackupType::Manual,
        })
    );
    let scheduled = backup_from_record(2, "b.zip".to_string(), 200, &"scheduled".to_string());
    assert_eq!(
        scheduled,
        Ok(Backup {
            id: 2,
            name: "b.zip".to_string(),
            created_at: 200,
            kind: BackupType::Scheduled,
        })
    );
    let unknown = backup_from_record(3, "c.zip".to_string(), 300, &"Manual".to_string());
    assert_eq!(unknown, Err(ApiError::Decode));
}

#[test]
fn age_is_now_minus_created_at() {
    let b = backup(1, 1200, BackupType::Manual);
    assert_eq!(b.age(1500), 300);
    assert_eq!(b.age(1000), -200);
}
