use tmmpr::states::map::{runtime_backup_due, save_due};
use tmmpr::states::settings::RuntimeBackupsInterval;

#[test]
fn save_due_only_with_unsaved_changes_after_the_interval() {
    // Saved maps are never due, however long ago the last save was.
    assert!(!save_due(true, 1_000_000_000_000, 10));
    // Unsaved changes: due once strictly more than the interval has passed.
    assert!(!save_due(false, 10_000_000_000, 10));
    assert!(save_due(false, 10_000_000_001, 10));
    assert!(!save_due(false, 0, 10));
}

#[test]
fn runtime_backup_due_after_the_interval() {
    assert!(!runtime_backup_due(3_600_000_000_000, &RuntimeBackupsInterval::Hourly));
    assert!(runtime_backup_due(3_600_000_000_001, &RuntimeBackupsInterval::Hourly));
    assert!(!runtime_backup_due(3_600_000_000_001, &RuntimeBackupsInterval::Every2Hours));
    assert!(runtime_backup_due(43_200_000_000_001, &RuntimeBackupsInterval::Every12Hours));
}
