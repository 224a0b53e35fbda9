use std::cell::RefCell;

use tmmpr::fs::FileSystem;
use tmmpr::states::settings::{get_settings_with_fs, save_settings_to_file_with_fs, Settings, SettingsType};
use tmmpr::states::start::{get_recent_paths_with_fs, RecentPaths};

/// A file system that records what is written where; nothing exists on it.
struct RecordingFileSystem {
    settings_written: RefCell<Vec<(String, Option<usize>, bool)>>,
    recent_written: RefCell<Vec<(String, Option<String>, Option<String>, Option<String>)>>,
}

impl RecordingFileSystem {
    fn new() -> Self {
        RecordingFileSystem { settings_written: RefCell::new(Vec::new()), recent_written: RefCell::new(Vec::new()) }
    }
}

impl FileSystem for RecordingFileSystem {
    fn get_home_dir(&self) -> Option<String> {
        Some("/home/u".to_string())
    }

    fn create_dir_all(&self, _path: &str) -> bool {
        true
    }

    fn path_exists(&self, _path: &str) -> bool {
        false
    }

    fn test_write_to_dir(&self, _path: &str) -> bool {
        true
    }

    fn read_settings(&self, _path: &str) -> Option<Settings> {
        None
    }

    fn write_settings(&self, path: &str, settings: &Settings) -> bool {
        self.settings_written.borrow_mut().push((path.to_string(), settings.save_interval, settings.edit_modal));
        true
    }

    fn read_recent_paths(&self, _path: &str) -> Option<RecentPaths> {
        None
    }

    fn write_recent_paths(&self, path: &str, recent_paths: &RecentPaths) -> bool {
        self.recent_written.borrow_mut().push((
            path.to_string(),
            recent_paths.recent_path_1.clone(),
            recent_paths.recent_path_2.clone(),
            recent_paths.recent_path_3.clone(),
        ));
        true
    }
}

#[test]
fn saving_settings_writes_the_given_settings() {
    let fs = RecordingFileSystem::new();
    let mut settings = Settings::new();
    settings.save_interval = Some(60);
    settings.edit_modal = true;
    assert_eq!(save_settings_to_file_with_fs(&settings, &fs), Ok(()));
    assert_eq!(
        fs.settings_written.borrow().as_slice(),
        &[("/home/u/.config/tmmpr/settings.json".to_string(), Some(60), true)]
    );
}

#[test]
fn first_boot_writes_default_settings() {
    let fs = RecordingFileSystem::new();
    let loaded = get_settings_with_fs(&fs);
    assert!(matches!(loaded, SettingsType::Default(_, None)));
    assert_eq!(
        fs.settings_written.borrow().as_slice(),
        &[("/home/u/.config/tmmpr/settings.json".to_string(), Some(20), false)]
    );
}

#[test]
fn saving_recent_paths_writes_this_list() {
    let fs = RecordingFileSystem::new();
    let mut recent = RecentPaths::new();
    recent.add("/maps/a.json".to_string());
    recent.add("/maps/b.json".to_string());
    assert!(recent.save_with_fs(&fs));
    assert_eq!(
        fs.recent_written.borrow().as_slice(),
        &[(
            "/home/u/.config/tmmpr/recent_paths.json".to_string(),
            Some("/maps/b.json".to_string()),
            Some("/maps/a.json".to_string()),
            None
        )]
    );
}

#[test]
fn first_boot_writes_empty_recent_paths() {
    let fs = RecordingFileSystem::new();
    let loaded = get_recent_paths_with_fs(&fs).unwrap();
    assert_eq!(loaded.recent_path_1, None);
    assert_eq!(fs.recent_written.borrow().len(), 1);
    assert_eq!(fs.recent_written.borrow()[0].1, None);
}
