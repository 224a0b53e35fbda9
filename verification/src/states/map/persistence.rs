use std::time::Instant;
use vstd::prelude::*;

use crate::states::map::BackupResult;
use crate::states::settings::RuntimeBackupsInterval;

verus! {

#[verifier::external_type_specification]
#[verifier::external_body]
pub struct ExInstant(Instant);

/// Calls `Instant::now`; nothing is claimed of the moment it returns.
#[verifier::external_body]
fn instant_now() -> Instant {
    Instant::now()
}

/// Calls `Instant::elapsed` and gives the duration in nanoseconds. The time
/// that has passed is not a function of the argument: nothing is claimed of it.
#[verifier::external_body]
fn elapsed_nanos(since: &Instant) -> u128 {
    since.elapsed().as_nanos()
}

/// The number of seconds between two runtime backups at the given interval.
pub open spec fn runtime_interval_secs(interval: RuntimeBackupsInterval) -> u64 {
    match interval {
        RuntimeBackupsInterval::Hourly => 3600,
        RuntimeBackupsInterval::Every2Hours => 7200,
        RuntimeBackupsInterval::Every4Hours => 14400,
        RuntimeBackupsInterval::Every6Hours => 21600,
        RuntimeBackupsInterval::Every12Hours => 43200,
    }
}

/// The number of seconds between two runtime backups at the given interval.
pub fn runtime_backup_interval_secs(interval: &RuntimeBackupsInterval) -> (r: u64)
    ensures
        r == runtime_interval_secs(*interval),
{
    match interval {
        RuntimeBackupsInterval::Hourly => 3600,
        RuntimeBackupsInterval::Every2Hours => 7200,
        RuntimeBackupsInterval::Every4Hours => 14400,
        RuntimeBackupsInterval::Every6Hours => 21600,
        RuntimeBackupsInterval::Every12Hours => 43200,
    }
}

/// Whether more than `secs` seconds have passed, given the nanoseconds that passed.
pub fn more_than_secs(elapsed_ns: u128, secs: u64) -> (r: bool)
    ensures
        r == (elapsed_ns > secs as int * 1_000_000_000),
{
    elapsed_ns > (secs as u128) * 1_000_000_000
}

/// Whether an auto-save is due, given whether all changes are saved and the
/// nanoseconds since the last save: only with unsaved changes, and only once
/// more than the interval has passed.
pub fn save_due(can_exit: bool, elapsed_ns: u128, interval_seconds: usize) -> (r: bool)
    ensures
        r == (!can_exit && elapsed_ns > interval_seconds as int * 1_000_000_000),
{
    !can_exit && more_than_secs(elapsed_ns, interval_seconds as u64)
}

/// Whether a runtime backup is due, given the nanoseconds since the last one:
/// once more than the interval has passed.
pub fn runtime_backup_due(elapsed_ns: u128, interval: &RuntimeBackupsInterval) -> (r: bool)
    ensures
        r == (elapsed_ns > runtime_interval_secs(*interval) as int * 1_000_000_000),
{
    more_than_secs(elapsed_ns, runtime_backup_interval_secs(interval))
}

/// Tracks file persistence, auto-save timing, and backup state for a map.
#[derive(PartialEq, Debug)]
pub struct PersistenceState {
    /// The path provided by the user to write the map data to
    /// e.g /home/user/maps/map_0.json
    pub file_write_path: String,
    /// Gates exiting/switching screens: false when there are unsaved changes,
    /// true when all changes are saved.
    pub can_exit: bool,
    pub last_save: Instant,
    pub backup_res: Option<BackupResult>,
    pub rt_backup_ts: Instant,
}

impl PersistenceState {
    pub fn new(file_write_path: String) -> (r: Self)
        ensures
            r.file_write_path@ == file_write_path@,
            r.can_exit,
            r.backup_res is None,
    {
        Self {
            file_write_path,
            can_exit: true,
            last_save: instant_now(),
            backup_res: None,
            rt_backup_ts: instant_now(),
        }
    }

    pub fn mark_dirty(&mut self)
        ensures
            !final(self).can_exit,
            final(self).file_write_path == old(self).file_write_path,
            final(self).last_save == old(self).last_save,
            final(self).backup_res == old(self).backup_res,
            final(self).rt_backup_ts == old(self).rt_backup_ts,
    {
        self.can_exit = false;
    }

    pub fn mark_clean(&mut self)
        ensures
            final(self).can_exit,
            final(self).file_write_path == old(self).file_write_path,
            final(self).last_save == old(self).last_save,
            final(self).backup_res == old(self).backup_res,
            final(self).rt_backup_ts == old(self).rt_backup_ts,
    {
        self.can_exit = true;
    }

    /// Only auto-saves if there are unsaved changes AND the interval has elapsed.
    /// Whether the interval has elapsed depends on the clock: with no unsaved
    /// changes the answer is `false` whatever the clock says; for each elapsed
    /// time, `save_due` gives it.
    pub fn should_save(&self, interval_seconds: usize) -> (r: bool)
        ensures
            r ==> !self.can_exit,
    {
        if self.can_exit {
            false
        } else {
            save_due(self.can_exit, elapsed_nanos(&self.last_save), interval_seconds)
        }
    }

    /// Whether more time than the interval has passed since the last runtime backup.
    /// The answer depends on the clock, which no clause states; for each
    /// elapsed time, `runtime_backup_due` gives it.
    pub fn should_backup(&self, interval: &RuntimeBackupsInterval) -> bool {
        runtime_backup_due(elapsed_nanos(&self.rt_backup_ts), interval)
    }

    pub fn reset_save_timer(&mut self)
        ensures
            final(self).file_write_path == old(self).file_write_path,
            final(self).can_exit == old(self).can_exit,
            final(self).backup_res == old(self).backup_res,
            final(self).rt_backup_ts == old(self).rt_backup_ts,
    {
        self.last_save = instant_now();
    }

    pub fn reset_backup_timer(&mut self)
        ensures
            final(self).file_write_path == old(self).file_write_path,
            final(self).can_exit == old(self).can_exit,
            final(self).backup_res == old(self).backup_res,
            final(self).last_save == old(self).last_save,
    {
        self.rt_backup_ts = instant_now();
    }
}

} // verus!
