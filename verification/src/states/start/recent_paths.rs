use vstd::prelude::*;

use crate::fs::{opt_view, FileSystem};
use crate::states::start::ErrMsg;
use crate::text::{joined_path, path_join, path_with_extension, paths_equal, same_path, with_extension};

verus! {

/// Stores up to 3 most recently opened map files, most recent first.
#[derive(PartialEq, Debug)]
pub struct RecentPaths {
    pub recent_path_1: Option<String>,
    pub recent_path_2: Option<String>,
    pub recent_path_3: Option<String>,
}

/// The contents of the recent paths as plain values: what a recent paths
/// file holds.
pub type RecentPathsView = (Option<Seq<char>>, Option<Seq<char>>, Option<Seq<char>>);

/// The contents of `rp`.
pub open spec fn recent_paths_view(rp: RecentPaths) -> RecentPathsView {
    (opt_view(rp.recent_path_1), opt_view(rp.recent_path_2), opt_view(rp.recent_path_3))
}

/// Whether an optional path is present and the same path as `p`, as `Path`
/// compares paths.
pub open spec fn holds_path(slot: Option<String>, p: Seq<char>) -> bool {
    slot matches Some(s) && same_path(s@, p)
}

/// The directory under the home directory that holds the configuration files.
pub open spec fn config_dir(home: Seq<char>) -> Seq<char> {
    joined_path(home, ".config/tmmpr/"@)
}

/// `~/.config/tmmpr/<name>.json`
pub open spec fn config_file(home: Seq<char>, name: Seq<char>) -> Seq<char> {
    path_with_extension(joined_path(config_dir(home), name), "json"@)
}

/// `~/.config/tmmpr/recent_paths.json`, as `save_with_fs` builds it.
pub open spec fn recent_paths_file_for_save(home: Seq<char>) -> Seq<char> {
    path_with_extension(joined_path(home, ".config/tmmpr/recent_paths"@), "json"@)
}

impl RecentPaths {
    pub fn new() -> (r: RecentPaths)
        ensures
            r.recent_path_1 is None,
            r.recent_path_2 is None,
            r.recent_path_3 is None,
    {
        RecentPaths { recent_path_1: None, recent_path_2: None, recent_path_3: None }
    }

    /// Adds a path to the top of the recent list (position 1).
    /// Shifts existing paths down, discarding the oldest if list is full.
    pub fn add(&mut self, path: String)
        ensures
            final(self).recent_path_1 == Some(path),
            final(self).recent_path_2 == old(self).recent_path_1,
            final(self).recent_path_3 == old(self).recent_path_2,
            holds_path(final(self).recent_path_1, path@),
    {
        self.recent_path_3 = self.recent_path_2.take();
        self.recent_path_2 = self.recent_path_1.take();
        self.recent_path_1 = Some(path);
    }

    /// Whether any of the three slots holds the same path as `path`.
    pub fn contains_path(&self, path: &str) -> (r: bool)
        ensures
            r == (holds_path(self.recent_path_1, path@) || holds_path(self.recent_path_2, path@)
                || holds_path(self.recent_path_3, path@)),
    {
        slot_holds(&self.recent_path_1, path) || slot_holds(&self.recent_path_2, path)
            || slot_holds(&self.recent_path_3, path)
    }

    /// Persists recent paths to `~/.config/tmmpr/recent_paths.json`.
    ///
    /// Errors are silently ignored: this is only called after
    /// `get_recent_paths_with_fs` made sure the config directory exists.
    /// Returns whether the file was written.
    pub fn save_with_fs<F: FileSystem>(&self, fs: &F) -> (written: bool)
        ensures
            written == (fs.spec_home_dir() matches Some(home) && fs.spec_write_recent_paths(
                recent_paths_file_for_save(home),
                recent_paths_view(*self),
            )),
    {
        let home_path = match fs.get_home_dir() {
            Some(path) => path,
            None => return false,
        };
        proof {
            reveal_strlit(".config/tmmpr/recent_paths");
            reveal_strlit("json");
        }
        let file = with_extension(
            path_join(home_path.as_str(), ".config/tmmpr/recent_paths").as_str(),
            "json",
        );
        fs.write_recent_paths(file.as_str(), self)
    }
}

fn slot_holds(slot: &Option<String>, path: &str) -> (r: bool)
    ensures
        r == holds_path(*slot, path@),
{
    match slot {
        Some(s) => paths_equal(s.as_str(), path),
        None => false,
    }
}

/// The outcome of loading the recent paths from the file system `fs`.
pub open spec fn spec_get_recent_paths<F: FileSystem>(fs: F) -> Result<RecentPaths, ErrMsg> {
    match fs.spec_home_dir() {
        None => Err(ErrMsg::DirFind),
        Some(home) => if !fs.spec_can_create_dir(config_dir(home)) {
            Err(ErrMsg::DirCreate)
        } else if fs.spec_path_exists(config_file(home, "recent_paths"@)) {
            match fs.spec_read_recent_paths(config_file(home, "recent_paths"@)) {
                Some(rp) => Ok(rp),
                None => Err(ErrMsg::FileRead),
            }
        } else if fs.spec_write_recent_paths(config_file(home, "recent_paths"@), (None, None, None)) {
            Ok(RecentPaths { recent_path_1: None, recent_path_2: None, recent_path_3: None })
        } else {
            Err(ErrMsg::FileWrite)
        },
    }
}

/// Loads recent paths from `~/.config/tmmpr/recent_paths.json`, creating an empty file
/// if it doesn't exist.
///
/// Returns an error if the config directory cannot be created or accessed, which disables
/// recent paths functionality for the session.
pub fn get_recent_paths_with_fs<F: FileSystem>(fs: &F) -> (r: Result<RecentPaths, ErrMsg>)
    ensures
        r == spec_get_recent_paths(*fs),
{
    let home_path = match fs.get_home_dir() {
        Some(path) => path,
        None => return Err(ErrMsg::DirFind),
    };
    proof {
        reveal_strlit(".config/tmmpr/");
        reveal_strlit("recent_paths");
        reveal_strlit("json");
    }
    let config_dir_path = path_join(home_path.as_str(), ".config/tmmpr/");

    if !fs.create_dir_all(config_dir_path.as_str()) {
        return Err(ErrMsg::DirCreate);
    }
    let recent_paths_file_path = with_extension(
        path_join(config_dir_path.as_str(), "recent_paths").as_str(),
        "json",
    );

    if fs.path_exists(recent_paths_file_path.as_str()) {
        match fs.read_recent_paths(recent_paths_file_path.as_str()) {
            Some(recent_paths) => Ok(recent_paths),
            None => Err(ErrMsg::FileRead),
        }
    } else {
        let new_recent_paths = RecentPaths::new();
        if fs.write_recent_paths(recent_paths_file_path.as_str(), &new_recent_paths) {
            Ok(new_recent_paths)
        } else {
            Err(ErrMsg::FileWrite)
        }
    }
}

} // verus!
