//! The options the graphical front end starts the editor with.
use crate::file::path::{join_path_buf, path_joined, path_text};
use std::path::PathBuf;
use vstd::prelude::*;

verus! {

/// Where the debug log goes, which file to open first and the directory
/// to work in.
#[derive(Debug, Clone)]
pub struct BackendOptions {
    pub debug_log_path: Option<PathBuf>,
    pub initial_file: Option<PathBuf>,
    pub working_directory: Option<PathBuf>,
}

impl Default for BackendOptions {
    fn default() -> (r: Self)
        ensures
            r.debug_log_path is None,
            r.initial_file is None,
            r.working_directory is None,
    {
        BackendOptions { debug_log_path: None, initial_file: None, working_directory: None }
    }
}

/// `dirs::home_dir`: the user's home directory, found in the environment;
/// nothing is stated of what comes back.
#[verifier::external_body]
fn home_dir() -> Option<PathBuf> {
    dirs::home_dir()
}

/// The log file in the home directory `home`: `.altre-log/debug.log`.
pub open spec fn log_file_in(home: Seq<char>) -> Seq<char> {
    path_joined(path_joined(home, ".altre-log"@), "debug.log"@)
}

/// The default log file for the home directory `home`: none without a
/// home directory, `.altre-log/debug.log` in it otherwise.
pub fn default_log_path(home: Option<PathBuf>) -> (r: Option<PathBuf>)
    ensures
        home is None <==> r is None,
        home matches Some(h) ==> (path_text(h) matches Some(t) ==> (r matches Some(x) && path_text(x) == Some(
            log_file_in(t),
        ))),
{
    match home {
        Some(h) => {
            let dir = join_path_buf(&h, ".altre-log");
            Some(join_path_buf(&dir, "debug.log"))
        },
        None => None,
    }
}

impl BackendOptions {
    /// The log file: the one given, or the default one in the home
    /// directory (see `default_log_path`).
    pub fn resolve_log_path(&self) -> (r: Option<PathBuf>)
        ensures
            self.debug_log_path matches Some(p) ==> r == Some(p),
    {
        match &self.debug_log_path {
            Some(path) => Some(path.clone()),
            None => default_log_path(home_dir()),
        }
    }

    /// These options with each one that `overrides` gives taken from it.
    pub fn merged_with(&self, overrides: &BackendOptions) -> (r: BackendOptions)
        ensures
            r.debug_log_path == (if overrides.debug_log_path is Some {
                overrides.debug_log_path
            } else {
                self.debug_log_path
            }),
            r.initial_file == (if overrides.initial_file is Some {
                overrides.initial_file
            } else {
                self.initial_file
            }),
            r.working_directory == (if overrides.working_directory is Some {
                overrides.working_directory
            } else {
                self.working_directory
            }),
    {
        BackendOptions {
            debug_log_path: either(&overrides.debug_log_path, &self.debug_log_path),
            initial_file: either(&overrides.initial_file, &self.initial_file),
            working_directory: either(&overrides.working_directory, &self.working_directory),
        }
    }
}

fn either(first: &Option<PathBuf>, second: &Option<PathBuf>) -> (r: Option<PathBuf>)
    ensures
        r == (if first is Some {
            *first
        } else {
            *second
        }),
{
    match first {
        Some(p) => Some(p.clone()),
        None => match second {
            Some(p) => Some(p.clone()),
            None => None,
        },
    }
}

} // verus!
