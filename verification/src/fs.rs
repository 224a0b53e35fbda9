//! The file system as the library sees it.
//!
//! Every operation on disk goes through `FileSystem`, so that the logic
//! that decides what to read, create and write can be run against any file
//! system: the real one, or one a test prepares. Each method is described
//! by a spec function of the file system's state; an implementation is
//! expected to answer as that description says.

use vstd::prelude::*;

use crate::states::settings::{settings_view, Settings, SettingsView};
use crate::states::start::{recent_paths_view, RecentPaths, RecentPathsView};

verus! {

/// The view of an optional string.
pub open spec fn opt_view(o: Option<String>) -> Option<Seq<char>> {
    match o {
        Some(s) => Some(s@),
        None => None,
    }
}

/// The file system operations the library performs. Each answer is tied
/// to a spec function that describes the file system; each implementation
/// gives those spec functions for itself. A write's outcome is described by
/// the path and the contents written.
///
/// The spec functions carry placeholder bodies only because the
/// implementations outside verified code (the program's real file system,
/// test doubles) are compiled as plain Rust, where a spec function without
/// a body would be a required item. A placeholder is one unknown answer,
/// the same for every path, so a verified implementation gives its own.
///
/// As in the interface the library's users implement, every method takes
/// `&self`, writes included. The spec functions are therefore read as the
/// file system the library was handed: a contract that asked the same
/// question again after a write would be told the same answer. The library
/// never asks about a file after writing it, and only learns from a write
/// whether the write succeeded; the one question it asks after creating a
/// directory, whether a file can be written in it, is described as asked of
/// the created directory. What a real file system answers after a write is
/// not stated.
pub trait FileSystem {
    /// The user's home directory, if it can be found.
    closed spec fn spec_home_dir(&self) -> Option<Seq<char>> {
        vstd::pervasive::arbitrary()
    }

    /// Whether the directory at `path` exists or can be created (with its parents).
    closed spec fn spec_can_create_dir(&self, path: Seq<char>) -> bool {
        vstd::pervasive::arbitrary()
    }

    /// Whether something exists at `path`.
    closed spec fn spec_path_exists(&self, path: Seq<char>) -> bool {
        vstd::pervasive::arbitrary()
    }

    /// Whether a file can be created in the directory at `path`, once that
    /// directory has been created.
    closed spec fn spec_can_write_in_dir(&self, path: Seq<char>) -> bool {
        vstd::pervasive::arbitrary()
    }

    /// Whether writing a settings file with the contents `settings` at
    /// `path` succeeds.
    closed spec fn spec_write_settings(&self, path: Seq<char>, settings: SettingsView) -> bool {
        vstd::pervasive::arbitrary()
    }

    /// Whether writing a recent paths file with the contents `recent_paths`
    /// at `path` succeeds.
    closed spec fn spec_write_recent_paths(&self, path: Seq<char>, recent_paths: RecentPathsView) -> bool {
        vstd::pervasive::arbitrary()
    }

    /// The settings that the file at `path` holds, if it can be read as settings.
    closed spec fn spec_read_settings(&self, path: Seq<char>) -> Option<Settings> {
        vstd::pervasive::arbitrary()
    }

    /// The recent paths that the file at `path` holds, if it can be read as such.
    closed spec fn spec_read_recent_paths(&self, path: Seq<char>) -> Option<RecentPaths> {
        vstd::pervasive::arbitrary()
    }

    fn get_home_dir(&self) -> (r: Option<String>)
        ensures
            opt_view(r) == self.spec_home_dir(),
    ;

    /// Creates the directory and its parents; returns whether it exists afterwards.
    fn create_dir_all(&self, path: &str) -> (r: bool)
        ensures
            r == self.spec_can_create_dir(path@),
    ;

    fn path_exists(&self, path: &str) -> (r: bool)
        ensures
            r == self.spec_path_exists(path@),
    ;

    /// Tries to create (and remove) a file in the directory; returns whether it could.
    fn test_write_to_dir(&self, path: &str) -> (r: bool)
        ensures
            r == self.spec_can_write_in_dir(path@),
    ;

    fn read_settings(&self, path: &str) -> (r: Option<Settings>)
        ensures
            r == self.spec_read_settings(path@),
    ;

    /// Writes the settings to the file; returns whether it could.
    fn write_settings(&self, path: &str, settings: &Settings) -> (r: bool)
        ensures
            r == self.spec_write_settings(path@, settings_view(*settings)),
    ;

    fn read_recent_paths(&self, path: &str) -> (r: Option<RecentPaths>)
        ensures
            r == self.spec_read_recent_paths(path@),
    ;

    /// Writes the recent paths to the file; returns whether it could.
    fn write_recent_paths(&self, path: &str, recent_paths: &RecentPaths) -> (r: bool)
        ensures
            r == self.spec_write_recent_paths(path@, recent_paths_view(*recent_paths)),
    ;
}

} // verus!
