use vstd::prelude::*;

use crate::graph::Side;
use crate::states::settings::helpers::spec_cycle_side;
use crate::states::settings::{cycle_side, BackupsInterval, RuntimeBackupsInterval};
use crate::text::str_eq;

verus! {

#[derive(PartialEq, Debug)]
pub struct Settings {
    /// Interval (in seconds) at which to auto-save changes
    pub save_interval: Option<usize>,
    /// How often to create backups when loading a map file
    pub backups_interval: Option<BackupsInterval>,
    pub backups_path: Option<String>,
    /// Tracks last backup timestamp (RFC 3339) per map file path
    pub backup_dates: Vec<(String, String)>,
    /// How often to create backups during an active editing session
    pub runtime_backups_interval: Option<RuntimeBackupsInterval>,
    pub default_start_side: Side,
    pub default_end_side: Side,
    pub edit_modal: bool,
}

/// The contents of the settings as plain values, field by field: what a
/// settings file holds.
pub type SettingsView = (
    Option<usize>,
    Option<BackupsInterval>,
    Option<Seq<char>>,
    Seq<(Seq<char>, Seq<char>)>,
    Option<RuntimeBackupsInterval>,
    Side,
    Side,
    bool,
);

/// The contents of `s`.
pub open spec fn settings_view(s: Settings) -> SettingsView {
    (
        s.save_interval,
        s.backups_interval,
        opt_string_view(s.backups_path),
        dates_view(s.backup_dates@),
        s.runtime_backups_interval,
        s.default_start_side,
        s.default_end_side,
        s.edit_modal,
    )
}

/// The contents of the default settings.
pub open spec fn default_settings_view() -> SettingsView {
    (Some(20usize), None, None, Seq::empty(), None, Side::Right, Side::Right, false)
}

/// Default settings all hold the same contents.
pub proof fn lemma_default_settings_view(s: Settings)
    requires
        is_default_settings(s),
    ensures
        settings_view(s) == default_settings_view(),
{
    assert(dates_view(s.backup_dates@) =~= Seq::<(Seq<char>, Seq<char>)>::empty());
}

/// The recorded backup dates as plain text pairs (map file path, date).
pub open spec fn dates_view(v: Seq<(String, String)>) -> Seq<(Seq<char>, Seq<char>)> {
    v.map_values(|e: (String, String)| (e.0@, e.1@))
}

/// Each map file path has at most one recorded backup date.
pub open spec fn one_date_per_path(v: Seq<(Seq<char>, Seq<char>)>) -> bool {
    forall|i: int, j: int| 0 <= i < j < v.len() ==> (#[trigger] v[i]).0 != (#[trigger] v[j]).0
}

/// The recorded dates without those of `path`, in their order.
pub open spec fn without_path(v: Seq<(Seq<char>, Seq<char>)>, path: Seq<char>) -> Seq<(Seq<char>, Seq<char>)>
    decreases v.len(),
{
    if v.len() == 0 {
        Seq::empty()
    } else {
        let p = without_path(v.drop_last(), path);
        if v.last().0 == path {
            p
        } else {
            p.push(v.last())
        }
    }
}

/// The date recorded for `path`, if any: that of its first entry.
pub open spec fn date_of(v: Seq<(Seq<char>, Seq<char>)>, path: Seq<char>) -> Option<Seq<char>>
    decreases v.len(),
{
    if v.len() == 0 {
        None
    } else if v[0].0 == path {
        Some(v[0].1)
    } else {
        date_of(v.drop_first(), path)
    }
}

/// The string views of an optional string.
pub open spec fn opt_string_view(o: Option<String>) -> Option<Seq<char>> {
    match o {
        Some(s) => Some(s@),
        None => None,
    }
}

/// Appending an entry for `path` to entries without it makes it the one found.
proof fn lemma_date_of_last(w: Seq<(Seq<char>, Seq<char>)>, path: Seq<char>, date: Seq<char>)
    requires
        forall|i: int| 0 <= i < w.len() ==> (#[trigger] w[i]).0 != path,
    ensures
        date_of(w.push((path, date)), path) == Some(date),
    decreases w.len(),
{
    if w.len() > 0 {
        assert(w.push((path, date)).drop_first() =~= w.drop_first().push((path, date)));
        lemma_date_of_last(w.drop_first(), path, date);
    }
}

proof fn lemma_without_path_props(v: Seq<(Seq<char>, Seq<char>)>, path: Seq<char>)
    ensures
        forall|i: int| 0 <= i < without_path(v, path).len() ==> (#[trigger] without_path(v, path)[i]).0 != path,
        forall|i: int| 0 <= i < without_path(v, path).len() ==> v.contains(#[trigger] without_path(v, path)[i]),
        one_date_per_path(v) ==> one_date_per_path(without_path(v, path)),
    decreases v.len(),
{
    if v.len() > 0 {
        lemma_without_path_props(v.drop_last(), path);
        let p = without_path(v.drop_last(), path);
        let w = without_path(v, path);
        assert forall|i: int| 0 <= i < w.len() implies v.contains(#[trigger] w[i]) by {
            if i < p.len() {
                assert(v.drop_last().contains(p[i]));
                let j = choose|j: int| 0 <= j < v.drop_last().len() && v.drop_last()[j] == p[i];
                assert(v[j] == w[i]);
            } else {
                assert(v[v.len() - 1] == w[i]);
            }
        }
        if one_date_per_path(v) {
            assert(one_date_per_path(v.drop_last())) by {
                assert forall|i: int, j: int| 0 <= i < j < v.drop_last().len() implies
                    (#[trigger] v.drop_last()[i]).0 != (#[trigger] v.drop_last()[j]).0 by {
                    assert(v.drop_last()[i] == v[i] && v.drop_last()[j] == v[j]);
                }
            }
            assert forall|i: int, j: int| 0 <= i < j < w.len() implies (#[trigger] w[i]).0 != (#[trigger] w[j]).0 by {
                if j >= p.len() {
                    assert(w[j] == v.last());
                    assert(w[i] == p[i]);
                    assert(v.drop_last().contains(p[i]));
                    let k = choose|k: int| 0 <= k < v.drop_last().len() && v.drop_last()[k] == p[i];
                    assert(v[k] == p[i]);
                    assert(v[k].0 != v[v.len() - 1].0);
                } else {
                    assert(w[i] == p[i] && w[j] == p[j]);
                }
            }
        }
    }
}

/// The auto-save interval that follows `i`: 10s -> 20s -> 30s -> 60s -> off -> 10s.
pub open spec fn next_save_interval(i: Option<usize>) -> Option<usize> {
    match i {
        None => Some(10),
        Some(10) => Some(20),
        Some(20) => Some(30),
        Some(30) => Some(60),
        _ => None,
    }
}

/// The auto-save intervals the settings menu offers.
pub open spec fn is_offered_save_interval(i: Option<usize>) -> bool {
    i is None || i == Some(10usize) || i == Some(20usize) || i == Some(30usize) || i == Some(
        60usize,
    )
}

pub open spec fn next_backups_interval(i: BackupsInterval) -> BackupsInterval {
    match i {
        BackupsInterval::Daily => BackupsInterval::Every3Days,
        BackupsInterval::Every3Days => BackupsInterval::Weekly,
        BackupsInterval::Weekly => BackupsInterval::Every2Weeks,
        BackupsInterval::Every2Weeks => BackupsInterval::Daily,
    }
}

pub open spec fn next_runtime_interval(i: RuntimeBackupsInterval) -> RuntimeBackupsInterval {
    match i {
        RuntimeBackupsInterval::Hourly => RuntimeBackupsInterval::Every2Hours,
        RuntimeBackupsInterval::Every2Hours => RuntimeBackupsInterval::Every4Hours,
        RuntimeBackupsInterval::Every4Hours => RuntimeBackupsInterval::Every6Hours,
        RuntimeBackupsInterval::Every6Hours => RuntimeBackupsInterval::Every12Hours,
        RuntimeBackupsInterval::Every12Hours => RuntimeBackupsInterval::Hourly,
    }
}

/// The default settings: auto-save every 20s, no backups, connections from
/// the right side to the right side, no modal editing.
pub open spec fn is_default_settings(s: Settings) -> bool {
    &&& s.save_interval == Some(20usize)
    &&& s.backups_interval is None
    &&& s.backups_path is None
    &&& s.backup_dates@.len() == 0
    &&& s.runtime_backups_interval is None
    &&& s.default_start_side == Side::Right
    &&& s.default_end_side == Side::Right
    &&& !s.edit_modal
}

impl Settings {
    /// The backup date recorded for the map file at `path`, if any.
    pub fn backup_date_of(&self, path: &str) -> (r: Option<String>)
        ensures
            opt_string_view(r) == date_of(dates_view(self.backup_dates@), path@),
    {
        let ghost v = dates_view(self.backup_dates@);
        assert(v.subrange(0, v.len() as int) =~= v);
        let mut i: usize = 0;
        while i < self.backup_dates.len()
            invariant
                i <= self.backup_dates@.len(),
                v == dates_view(self.backup_dates@),
                date_of(v, path@) == date_of(v.subrange(i as int, v.len() as int), path@),
            decreases self.backup_dates@.len() - i,
        {
            let ghost rest = v.subrange(i as int, v.len() as int);
            assert(rest.drop_first() =~= v.subrange(i + 1, v.len() as int));
            if str_eq(self.backup_dates[i].0.as_str(), path) {
                return Some(self.backup_dates[i].1.clone());
            }
            i = i + 1;
        }
        None
    }

    /// Records `date` as the last backup of the map file at `path`: any date
    /// recorded for that path before is dropped, the others keep their order,
    /// and the new entry comes last. Each path thus keeps at most one date.
    pub fn record_backup_date(&mut self, path: String, date: String)
        ensures
            dates_view(final(self).backup_dates@) == without_path(dates_view(old(self).backup_dates@), path@).push(
                (path@, date@),
            ),
            date_of(dates_view(final(self).backup_dates@), path@) == Some(date@),
            one_date_per_path(dates_view(old(self).backup_dates@)) ==> one_date_per_path(
                dates_view(final(self).backup_dates@),
            ),
            final(self).save_interval == old(self).save_interval,
            final(self).backups_interval == old(self).backups_interval,
            final(self).backups_path == old(self).backups_path,
            final(self).runtime_backups_interval == old(self).runtime_backups_interval,
            final(self).default_start_side == old(self).default_start_side,
            final(self).default_end_side == old(self).default_end_side,
            final(self).edit_modal == old(self).edit_modal,
    {
        let ghost v = dates_view(self.backup_dates@);
        let mut kept: Vec<(String, String)> = Vec::new();
        let mut i: usize = 0;
        while i < self.backup_dates.len()
            invariant
                i <= self.backup_dates@.len(),
                v == dates_view(self.backup_dates@),
                dates_view(kept@) == without_path(v.take(i as int), path@),
            decreases self.backup_dates@.len() - i,
        {
            assert(v.take(i + 1).drop_last() =~= v.take(i as int));
            let entry = &self.backup_dates[i];
            if !str_eq(entry.0.as_str(), path.as_str()) {
                let e = (entry.0.clone(), entry.1.clone());
                kept.push(e);
                assert(dates_view(kept@) =~= without_path(v.take(i as int), path@).push(v[i as int]));
            }
            i = i + 1;
        }
        assert(v.take(v.len() as int) =~= v);
        let ghost w = dates_view(kept@);
        kept.push((path, date));
        assert(dates_view(kept@) =~= w.push((path@, date@)));
        self.backup_dates = kept;
        proof {
            lemma_without_path_props(v, path@);
            lemma_date_of_last(w, path@, date@);
        }
    }
}

impl Settings {
    pub fn new() -> (r: Settings)
        ensures
            is_default_settings(r),
    {
        Settings {
            save_interval: Some(20),
            backups_interval: None,
            backups_path: None,
            backup_dates: Vec::new(),
            runtime_backups_interval: None,
            default_start_side: Side::Right,
            default_end_side: Side::Right,
            edit_modal: false,
        }
    }

    /// Cycles through available save intervals: 10s -> 20s -> 30s -> 60s -> off
    pub fn cycle_save_intervals(&mut self)
        requires
            is_offered_save_interval(old(self).save_interval),
        ensures
            *final(self) == (Settings {
                save_interval: next_save_interval(old(self).save_interval),
                ..*old(self)
            }),
    {
        self.save_interval = match self.save_interval {
            None => Some(10),
            Some(10) => Some(20),
            Some(20) => Some(30),
            Some(30) => Some(60),
            _ => None,
        };
    }

    /// Cycles through backup intervals for map loading backups
    pub fn cycle_backup_interval(&mut self)
        requires
            old(self).backups_interval is Some,
        ensures
            *final(self) == (Settings {
                backups_interval: Some(next_backups_interval(old(self).backups_interval->0)),
                ..*old(self)
            }),
    {
        self.backups_interval = match self.backups_interval {
            Some(BackupsInterval::Daily) => Some(BackupsInterval::Every3Days),
            Some(BackupsInterval::Every3Days) => Some(BackupsInterval::Weekly),
            Some(BackupsInterval::Weekly) => Some(BackupsInterval::Every2Weeks),
            _ => Some(BackupsInterval::Daily),
        };
    }

    /// Cycles through runtime backup intervals during active sessions
    pub fn cycle_runtime_backup_interval(&mut self)
        requires
            old(self).runtime_backups_interval is Some,
        ensures
            *final(self) == (Settings {
                runtime_backups_interval: Some(
                    next_runtime_interval(old(self).runtime_backups_interval->0),
                ),
                ..*old(self)
            }),
    {
        self.runtime_backups_interval = match self.runtime_backups_interval {
            Some(RuntimeBackupsInterval::Hourly) => Some(RuntimeBackupsInterval::Every2Hours),
            Some(RuntimeBackupsInterval::Every2Hours) => Some(RuntimeBackupsInterval::Every4Hours),
            Some(RuntimeBackupsInterval::Every4Hours) => Some(RuntimeBackupsInterval::Every6Hours),
            Some(RuntimeBackupsInterval::Every6Hours) => Some(RuntimeBackupsInterval::Every12Hours),
            _ => Some(RuntimeBackupsInterval::Hourly),
        }
    }

    /// Cycles default connection side. If `start_side` is true, cycles start side; otherwise cycles end side.
    pub fn cycle_default_sides(&mut self, start_side: bool)
        ensures
            *final(self) == (if start_side {
                Settings { default_start_side: spec_cycle_side(old(self).default_start_side), ..*old(self) }
            } else {
                Settings { default_end_side: spec_cycle_side(old(self).default_end_side), ..*old(self) }
            }),
    {
        if start_side {
            self.default_start_side = cycle_side(self.default_start_side);
        } else {
            self.default_end_side = cycle_side(self.default_end_side);
        }
    }
}

/// The number of days between two backups made when a map is opened.
pub open spec fn spec_backup_interval_days(interval: BackupsInterval) -> i64 {
    match interval {
        BackupsInterval::Daily => 1,
        BackupsInterval::Every3Days => 3,
        BackupsInterval::Weekly => 7,
        BackupsInterval::Every2Weeks => 14,
    }
}

/// The number of days between two backups made when a map is opened.
pub fn backup_interval_days(interval: &BackupsInterval) -> (r: i64)
    ensures
        r == spec_backup_interval_days(*interval),
{
    match interval {
        BackupsInterval::Daily => 1,
        BackupsInterval::Every3Days => 3,
        BackupsInterval::Weekly => 7,
        BackupsInterval::Every2Weeks => 14,
    }
}

/// Whether opening a map calls for a backup: none was recorded yet, or at
/// least the interval's number of days has passed since the last one.
pub fn backup_due(days_since_last: Option<i64>, interval: &BackupsInterval) -> (r: bool)
    ensures
        r == match days_since_last {
            None => true,
            Some(d) => d >= spec_backup_interval_days(*interval),
        },
{
    match days_since_last {
        None => true,
        Some(d) => d >= backup_interval_days(interval),
    }
}

/// Law: the auto-save intervals form a cycle of five: cycling five times
/// from any offered interval returns to it, and each step stays among the
/// offered intervals.
pub proof fn lemma_save_interval_cycle(i: Option<usize>)
    requires
        is_offered_save_interval(i),
    ensures
        is_offered_save_interval(next_save_interval(i)),
        next_save_interval(
            next_save_interval(next_save_interval(next_save_interval(next_save_interval(i)))),
        ) == i,
{
}

/// Law: the backup intervals form a cycle of four, the runtime backup
/// intervals a cycle of five.
pub proof fn lemma_backup_interval_cycles(b: BackupsInterval, r: RuntimeBackupsInterval)
    ensures
        next_backups_interval(next_backups_interval(next_backups_interval(next_backups_interval(b))))
            == b,
        next_runtime_interval(
            next_runtime_interval(
                next_runtime_interval(next_runtime_interval(next_runtime_interval(r))),
            ),
        ) == r,
{
}


/// Law: each press on the auto-save interval lengthens it, until after the
/// longest it switches auto-save off, and from off it starts at the shortest
/// (10 s); no fewer than five presses come back to where they started.
pub proof fn lemma_save_interval_grows(i: Option<usize>)
    requires
        is_offered_save_interval(i),
    ensures
        i matches Some(v) ==> (v < 60 ==> (next_save_interval(i) matches Some(w) && w > v)),
        i == Some(60usize) ==> next_save_interval(i) is None,
        i is None ==> next_save_interval(i) == Some(10usize),
        next_save_interval(i) != i,
        next_save_interval(next_save_interval(i)) != i,
        next_save_interval(next_save_interval(next_save_interval(i))) != i,
        next_save_interval(next_save_interval(next_save_interval(next_save_interval(i)))) != i,
{
}

/// Law: each press on the backup interval lengthens it, but from the
/// longest it returns to daily; no fewer than four presses come back.
pub proof fn lemma_backups_interval_grows(b: BackupsInterval)
    ensures
        b != BackupsInterval::Every2Weeks ==> spec_backup_interval_days(next_backups_interval(b))
            > spec_backup_interval_days(b),
        b == BackupsInterval::Every2Weeks ==> next_backups_interval(b) == BackupsInterval::Daily,
        next_backups_interval(b) != b,
        next_backups_interval(next_backups_interval(b)) != b,
        next_backups_interval(next_backups_interval(next_backups_interval(b))) != b,
{
}

/// Law: each press on the runtime backup interval lengthens it, but from
/// the longest it returns to hourly; no fewer than five presses come back.
pub proof fn lemma_runtime_interval_grows(r: RuntimeBackupsInterval)
    ensures
        r != RuntimeBackupsInterval::Every12Hours ==> crate::states::map::runtime_interval_secs(
            next_runtime_interval(r),
        ) > crate::states::map::runtime_interval_secs(r),
        r == RuntimeBackupsInterval::Every12Hours ==> next_runtime_interval(r) == RuntimeBackupsInterval::Hourly,
        next_runtime_interval(r) != r,
        next_runtime_interval(next_runtime_interval(r)) != r,
        next_runtime_interval(next_runtime_interval(next_runtime_interval(r))) != r,
        next_runtime_interval(next_runtime_interval(next_runtime_interval(next_runtime_interval(r)))) != r,
{
}

} // verus!
