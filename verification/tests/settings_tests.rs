use std::collections::HashSet;

use tmmpr::fs::FileSystem;
use tmmpr::graph::Side;
use tmmpr::states::settings::{
    backup_due, backup_interval_days, cycle_side, get_settings_with_fs, resolve_backup_path, save_settings_with_fs, side_to_string,
    validate_backup_directory, BackupsErr, BackupsInterval, RuntimeBackupsInterval, SelectedToggle,
    Settings, SettingsNotification, SettingsState, SettingsType,
};
use tmmpr::states::start::{ErrMsg, RecentPaths};

/// A file system held in memory: a home directory, the paths that exist,
/// and switches that make directory creation or writing fail.
struct MockFileSystem {
    home: Option<String>,
    existing: HashSet<String>,
    dir_create_fails: bool,
    write_fails: bool,
}

impl MockFileSystem {
    fn new() -> Self {
        MockFileSystem {
            home: Some("/mock/home".to_string()),
            existing: HashSet::new(),
            dir_create_fails: false,
            write_fails: false,
        }
    }

    fn with_home_dir(mut self, home: Option<&str>) -> Self {
        self.home = home.map(|h| h.to_string());
        self
    }

    fn with_dir_create_failure(mut self) -> Self {
        self.dir_create_fails = true;
        self
    }

    fn with_write_failure(mut self) -> Self {
        self.write_fails = true;
        self
    }
}

impl FileSystem for MockFileSystem {
    fn get_home_dir(&self) -> Option<String> {
        self.home.clone()
    }

    fn create_dir_all(&self, _path: &str) -> bool {
        !self.dir_create_fails
    }

    fn path_exists(&self, path: &str) -> bool {
        self.existing.contains(path)
    }

    fn test_write_to_dir(&self, _path: &str) -> bool {
        !self.write_fails
    }

    fn read_settings(&self, _path: &str) -> Option<Settings> {
        None
    }

    fn write_settings(&self, _path: &str, _settings: &Settings) -> bool {
        !self.write_fails
    }

    fn read_recent_paths(&self, _path: &str) -> Option<RecentPaths> {
        None
    }

    fn write_recent_paths(&self, _path: &str, _recent_paths: &RecentPaths) -> bool {
        !self.write_fails
    }
}

fn settings_state() -> SettingsState {
    SettingsState::new_with_fs("/test/path/map.json".to_string(), &MockFileSystem::new())
}

#[test]
fn test_toggle_go_down_without_runtime_backups() {
    let mut state = settings_state();
    state.settings.settings_mut().runtime_backups_interval = None;

    state.selected_toggle = SelectedToggle::Toggle1;
    state.toggle_go_down();
    assert_eq!(state.selected_toggle, SelectedToggle::Toggle2);

    state.selected_toggle = SelectedToggle::Toggle2;
    state.toggle_go_down();
    assert_eq!(state.selected_toggle, SelectedToggle::Toggle4);

    state.selected_toggle = SelectedToggle::Toggle4;
    state.toggle_go_down();
    assert_eq!(state.selected_toggle, SelectedToggle::Toggle5);

    state.selected_toggle = SelectedToggle::Toggle5;
    state.toggle_go_down();
    assert_eq!(state.selected_toggle, SelectedToggle::Toggle6);

    state.selected_toggle = SelectedToggle::Toggle6;
    state.toggle_go_down();
    assert_eq!(state.selected_toggle, SelectedToggle::Toggle1);
}

#[test]
fn test_toggle_go_down_with_runtime_backups() {
    let mut state = settings_state();
    state.settings.settings_mut().runtime_backups_interval = Some(RuntimeBackupsInterval::Hourly);

    state.selected_toggle = SelectedToggle::Toggle2;
    state.toggle_go_down();
    assert_eq!(state.selected_toggle, SelectedToggle::Toggle3);

    state.selected_toggle = SelectedToggle::Toggle3;
    state.toggle_go_down();
    assert_eq!(state.selected_toggle, SelectedToggle::Toggle4);
}

#[test]
fn test_toggle_go_up_without_runtime_backups() {
    let mut state = settings_state();
    state.settings.settings_mut().runtime_backups_interval = None;

    state.selected_toggle = SelectedToggle::Toggle1;
    state.toggle_go_up();
    assert_eq!(state.selected_toggle, SelectedToggle::Toggle6);

    state.selected_toggle = SelectedToggle::Toggle2;
    state.toggle_go_up();
    assert_eq!(state.selected_toggle, SelectedToggle::Toggle1);

    state.selected_toggle = SelectedToggle::Toggle4;
    state.toggle_go_up();
    assert_eq!(state.selected_toggle, SelectedToggle::Toggle2);

    state.selected_toggle = SelectedToggle::Toggle5;
    state.toggle_go_up();
    assert_eq!(state.selected_toggle, SelectedToggle::Toggle4);

    state.selected_toggle = SelectedToggle::Toggle6;
    state.toggle_go_up();
    assert_eq!(state.selected_toggle, SelectedToggle::Toggle5);
}

#[test]
fn test_toggle_go_up_with_runtime_backups() {
    let mut state = settings_state();
    state.settings.settings_mut().runtime_backups_interval = Some(RuntimeBackupsInterval::Hourly);

    state.selected_toggle = SelectedToggle::Toggle4;
    state.toggle_go_up();
    assert_eq!(state.selected_toggle, SelectedToggle::Toggle3);

    state.selected_toggle = SelectedToggle::Toggle3;
    state.toggle_go_up();
    assert_eq!(state.selected_toggle, SelectedToggle::Toggle2);
}

#[test]
fn test_toggle_down_then_up_returns() {
    for runtime_on in [false, true] {
        for toggle in [
            SelectedToggle::Toggle1,
            SelectedToggle::Toggle2,
            SelectedToggle::Toggle4,
            SelectedToggle::Toggle5,
            SelectedToggle::Toggle6,
        ] {
            let mut state = settings_state();
            state.settings.settings_mut().runtime_backups_interval =
                if runtime_on { Some(RuntimeBackupsInterval::Hourly) } else { None };
            state.selected_toggle = toggle;
            state.toggle_go_down();
            state.toggle_go_up();
            assert_eq!(state.selected_toggle, toggle);
        }
    }
}

#[test]
fn test_submit_path_with_absolute_path() {
    let mut state = settings_state();
    state.settings.settings_mut().backups_path = Some("/tmp/somewhere/backups".to_string());
    state.submit_path_with_fs(&MockFileSystem::new());

    assert!(state.settings.settings().backups_interval.is_some());
    assert!(state.settings.settings().runtime_backups_interval.is_some());
    assert_eq!(state.input_prompt, false);
    assert_eq!(state.input_prompt_err, None);
    assert_eq!(state.settings.settings().backups_path, Some("/tmp/somewhere/backups".to_string()));
}

#[test]
fn test_submit_path_with_relative_path() {
    let mut state = settings_state();
    state.settings.settings_mut().backups_path = Some("test_backups".to_string());
    state.submit_path_with_fs(&MockFileSystem::new());

    let backups_path = state.settings.settings().backups_path.as_ref().unwrap();
    assert!(backups_path.contains("test_backups"));
    assert!(backups_path.starts_with("/"));
    assert_eq!(backups_path, "/mock/home/test_backups");
}

#[test]
fn test_submit_path_sets_correct_intervals() {
    let mut state = settings_state();
    state.settings.settings_mut().backups_path = Some("/tmp/backups".to_string());
    state.settings.settings_mut().backups_interval = None;
    state.settings.settings_mut().runtime_backups_interval = None;

    state.submit_path_with_fs(&MockFileSystem::new());

    assert_eq!(state.settings.settings().backups_interval, Some(BackupsInterval::Daily));
    assert_eq!(
        state.settings.settings().runtime_backups_interval,
        Some(RuntimeBackupsInterval::Every2Hours)
    );
}

#[test]
fn test_submit_path_resets_error_on_success() {
    let mut state = settings_state();
    state.settings.settings_mut().backups_path = Some("/tmp/backups".to_string());
    state.input_prompt_err = Some(BackupsErr::DirCreate);
    state.input_prompt = true;

    state.submit_path_with_fs(&MockFileSystem::new());

    assert_eq!(state.input_prompt_err, None);
    assert_eq!(state.input_prompt, false);
}

#[test]
fn test_submit_path_with_invalid_directory_path() {
    let mut state = settings_state();
    state.settings.settings_mut().backups_path = Some("/root/restricted/backups".to_string());
    state.input_prompt = true;

    state.submit_path_with_fs(&MockFileSystem::new().with_dir_create_failure());

    assert_eq!(state.input_prompt_err, Some(BackupsErr::DirCreate));
    assert_eq!(state.input_prompt, true);
    assert_eq!(state.settings.settings().backups_interval, None);
}

#[test]
fn test_submit_path_unwritable_directory() {
    let mut state = settings_state();
    state.settings.settings_mut().backups_path = Some("/tmp/backups".to_string());
    state.input_prompt = true;

    state.submit_path_with_fs(&MockFileSystem::new().with_write_failure());

    assert_eq!(state.input_prompt_err, Some(BackupsErr::FileWrite));
    assert_eq!(state.input_prompt, true);
}

#[test]
fn test_submit_relative_path_without_home() {
    let mut state = settings_state();
    state.settings.settings_mut().backups_path = Some("backups".to_string());
    state.input_prompt = true;

    state.submit_path_with_fs(&MockFileSystem::new().with_home_dir(None));

    assert_eq!(state.input_prompt_err, Some(BackupsErr::DirFind));
    assert_eq!(state.settings.settings().backups_path, Some("backups".to_string()));
}

#[test]
fn test_resolve_backup_path() {
    let fs = MockFileSystem::new();
    assert_eq!(resolve_backup_path("/abs/dir", &fs), Ok("/abs/dir".to_string()));
    assert_eq!(resolve_backup_path("rel/dir", &fs), Ok("/mock/home/rel/dir".to_string()));
    assert_eq!(
        resolve_backup_path("rel", &MockFileSystem::new().with_home_dir(None)),
        Err(BackupsErr::DirFind)
    );
}

#[test]
fn test_validate_backup_directory() {
    assert_eq!(validate_backup_directory("/d", &MockFileSystem::new()), Ok(()));
    assert_eq!(
        validate_backup_directory("/d", &MockFileSystem::new().with_dir_create_failure()),
        Err(BackupsErr::DirCreate)
    );
    assert_eq!(
        validate_backup_directory("/d", &MockFileSystem::new().with_write_failure()),
        Err(BackupsErr::FileWrite)
    );
}

#[test]
fn settings_tests_test_cycle_save_intervals() {
    let mut settings = Settings::new();

    assert_eq!(settings.save_interval, Some(20));

    settings.cycle_save_intervals();
    assert_eq!(settings.save_interval, Some(30));

    settings.cycle_save_intervals();
    assert_eq!(settings.save_interval, Some(60));

    settings.cycle_save_intervals();
    assert_eq!(settings.save_interval, None);

    settings.cycle_save_intervals();
    assert_eq!(settings.save_interval, Some(10));

    settings.cycle_save_intervals();
    assert_eq!(settings.save_interval, Some(20));
}

#[test]
fn test_cycle_backup_interval() {
    let mut settings = Settings::new();
    settings.backups_interval = Some(BackupsInterval::Daily);

    settings.cycle_backup_interval();
    assert_eq!(settings.backups_interval, Some(BackupsInterval::Every3Days));

    settings.cycle_backup_interval();
    assert_eq!(settings.backups_interval, Some(BackupsInterval::Weekly));

    settings.cycle_backup_interval();
    assert_eq!(settings.backups_interval, Some(BackupsInterval::Every2Weeks));

    settings.cycle_backup_interval();
    assert_eq!(settings.backups_interval, Some(BackupsInterval::Daily));
}

#[test]
fn test_cycle_runtime_backup_interval() {
    let mut settings = Settings::new();
    settings.runtime_backups_interval = Some(RuntimeBackupsInterval::Hourly);

    settings.cycle_runtime_backup_interval();
    assert_eq!(settings.runtime_backups_interval, Some(RuntimeBackupsInterval::Every2Hours));

    settings.cycle_runtime_backup_interval();
    assert_eq!(settings.runtime_backups_interval, Some(RuntimeBackupsInterval::Every4Hours));

    settings.cycle_runtime_backup_interval();
    assert_eq!(settings.runtime_backups_interval, Some(RuntimeBackupsInterval::Every6Hours));

    settings.cycle_runtime_backup_interval();
    assert_eq!(settings.runtime_backups_interval, Some(RuntimeBackupsInterval::Every12Hours));

    settings.cycle_runtime_backup_interval();
    assert_eq!(settings.runtime_backups_interval, Some(RuntimeBackupsInterval::Hourly));
}

#[test]
fn settings_tests_test_cycle_default_sides() {
    let mut settings = Settings::new();

    assert_eq!(settings.default_start_side, Side::Right);
    settings.cycle_default_sides(true);
    assert_eq!(settings.default_start_side, Side::Bottom);

    settings.cycle_default_sides(true);
    assert_eq!(settings.default_start_side, Side::Left);

    settings.cycle_default_sides(true);
    assert_eq!(settings.default_start_side, Side::Top);

    settings.cycle_default_sides(true);
    assert_eq!(settings.default_start_side, Side::Right);

    assert_eq!(settings.default_end_side, Side::Right);
    settings.cycle_default_sides(false);
    assert_eq!(settings.default_end_side, Side::Bottom);

    settings.cycle_default_sides(false);
    assert_eq!(settings.default_end_side, Side::Left);

    settings.cycle_default_sides(false);
    assert_eq!(settings.default_end_side, Side::Top);

    settings.cycle_default_sides(false);
    assert_eq!(settings.default_end_side, Side::Right);
}

#[test]
fn test_settings_type_mut() {
    let settings = Settings::new();
    let mut settings_type = SettingsType::Default(settings, None);

    {
        let settings_mut = settings_type.settings_mut();
        settings_mut.save_interval = Some(60);
        settings_mut.edit_modal = true;
    }

    let settings_ref = settings_type.settings();
    assert_eq!(settings_ref.save_interval, Some(60));
    assert_eq!(settings_ref.edit_modal, true);
}

#[test]
fn settings_tests_test_cycle_side() {
    assert_eq!(cycle_side(Side::Right), Side::Bottom);
    assert_eq!(cycle_side(Side::Bottom), Side::Left);
    assert_eq!(cycle_side(Side::Left), Side::Top);
    assert_eq!(cycle_side(Side::Top), Side::Right);
}

#[test]
fn test_side_to_string() {
    assert_eq!(side_to_string(Side::Right), "Right");
    assert_eq!(side_to_string(Side::Bottom), "Bottom");
    assert_eq!(side_to_string(Side::Left), "Left");
    assert_eq!(side_to_string(Side::Top), "Top");
}

#[test]
fn test_cycle_side_four_times_returns() {
    for side in [Side::Right, Side::Bottom, Side::Left, Side::Top] {
        assert_eq!(cycle_side(cycle_side(cycle_side(cycle_side(side)))), side);
    }
}

#[test]
fn test_save_interval_cycle_has_period_five() {
    for start in [None, Some(10), Some(20), Some(30), Some(60)] {
        let mut settings = Settings::new();
        settings.save_interval = start;
        for _ in 0..5 {
            settings.cycle_save_intervals();
        }
        assert_eq!(settings.save_interval, start);
    }
}

#[test]
fn test_get_settings_first_boot_writes_defaults() {
    match get_settings_with_fs(&MockFileSystem::new()) {
        SettingsType::Default(settings, err) => {
            assert_eq!(err, None);
            assert_eq!(settings.save_interval, Some(20));
        }
        SettingsType::Custom(_) => panic!("expected defaults"),
    }
}

#[test]
fn test_get_settings_errors() {
    let no_home = get_settings_with_fs(&MockFileSystem::new().with_home_dir(None));
    assert!(matches!(no_home, SettingsType::Default(_, Some(ErrMsg::DirFind))));

    let no_dir = get_settings_with_fs(&MockFileSystem::new().with_dir_create_failure());
    assert!(matches!(no_dir, SettingsType::Default(_, Some(ErrMsg::DirCreate))));

    let no_write = get_settings_with_fs(&MockFileSystem::new().with_write_failure());
    assert!(matches!(no_write, SettingsType::Default(_, Some(ErrMsg::FileWrite))));

    let mut fs = MockFileSystem::new();
    fs.existing.insert("/mock/home/.config/tmmpr/settings.json".to_string());
    let unreadable = get_settings_with_fs(&fs);
    assert!(matches!(unreadable, SettingsType::Default(_, Some(ErrMsg::FileRead))));
}

#[test]
fn test_save_settings_success() {
    let mut state = settings_state();
    state.can_exit = false;
    state.notification = None;

    save_settings_with_fs(&mut state, &MockFileSystem::new());

    assert!(state.notification.is_some());
    assert_eq!(state.notification, Some(SettingsNotification::SaveSuccess));
    assert_eq!(state.can_exit, true);
}

#[test]
fn test_save_settings_failure() {
    let mut state = settings_state();
    state.can_exit = false;

    save_settings_with_fs(&mut state, &MockFileSystem::new().with_write_failure());

    assert_eq!(state.notification, Some(SettingsNotification::SaveFail));
    assert_eq!(state.can_exit, false);
}

#[test]
fn test_backup_due_when_none_recorded() {
    assert!(backup_due(None, &BackupsInterval::Daily));
    assert!(backup_due(None, &BackupsInterval::Every2Weeks));
}

#[test]
fn test_backup_due_after_interval_days() {
    assert_eq!(backup_interval_days(&BackupsInterval::Daily), 1);
    assert_eq!(backup_interval_days(&BackupsInterval::Every3Days), 3);
    assert_eq!(backup_interval_days(&BackupsInterval::Weekly), 7);
    assert_eq!(backup_interval_days(&BackupsInterval::Every2Weeks), 14);
    assert!(!backup_due(Some(0), &BackupsInterval::Daily));
    assert!(backup_due(Some(1), &BackupsInterval::Daily));
    assert!(!backup_due(Some(2), &BackupsInterval::Every3Days));
    assert!(backup_due(Some(3), &BackupsInterval::Every3Days));
    assert!(!backup_due(Some(6), &BackupsInterval::Weekly));
    assert!(backup_due(Some(14), &BackupsInterval::Every2Weeks));
}

#[test]
fn test_get_settings_returns_settings_type() {
    let settings_type = get_settings_with_fs(&MockFileSystem::new());

    match settings_type {
        SettingsType::Default(settings, _) => {
            assert_eq!(settings.save_interval, Some(20));
        }
        SettingsType::Custom(settings) => {
            assert!(settings.save_interval.is_some() || settings.save_interval.is_none());
        }
    }
}

#[test]
fn test_settings_with_populated_backup_dates() {
    let mut settings = Settings::new();

    settings.backup_dates.push(("/path/map1.json".to_string(), "2024-01-01T12:00:00+00:00".to_string()));
    settings.backup_dates.push(("/path/map2.json".to_string(), "2024-01-02T12:00:00+00:00".to_string()));

    assert_eq!(settings.backup_dates.len(), 2);
    assert!(settings.backup_dates.iter().any(|(p, _)| p == "/path/map1.json"));
    assert!(settings.backup_dates.iter().any(|(p, _)| p == "/path/map2.json"));
}

#[test]
fn test_get_settings_returns_valid_settings_type() {
    let settings_type = get_settings_with_fs(&MockFileSystem::new());

    match settings_type {
        SettingsType::Default(settings, _) => {
            assert_eq!(settings.save_interval, Some(20));
            assert_eq!(settings.backups_interval, None);
            assert_eq!(settings.backups_path, None);
            assert_eq!(settings.runtime_backups_interval, None);
            assert_eq!(settings.default_start_side, Side::Right);
            assert_eq!(settings.default_end_side, Side::Right);
            assert_eq!(settings.edit_modal, false);
        }
        SettingsType::Custom(_) => {}
    }
}

#[test]
fn test_record_backup_date_keeps_one_date_per_path() {
    let mut settings = Settings::new();
    settings.record_backup_date("/maps/a.json".to_string(), "2024-01-01T00:00:00+00:00".to_string());
    settings.record_backup_date("/maps/b.json".to_string(), "2024-01-02T00:00:00+00:00".to_string());
    settings.record_backup_date("/maps/a.json".to_string(), "2024-02-01T00:00:00+00:00".to_string());
    assert_eq!(
        settings.backup_dates,
        vec![
            ("/maps/b.json".to_string(), "2024-01-02T00:00:00+00:00".to_string()),
            ("/maps/a.json".to_string(), "2024-02-01T00:00:00+00:00".to_string()),
        ]
    );
    assert_eq!(settings.backup_date_of("/maps/a.json"), Some("2024-02-01T00:00:00+00:00".to_string()));
    assert_eq!(settings.backup_date_of("/maps/c.json"), None);
}
