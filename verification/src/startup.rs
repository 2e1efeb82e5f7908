//! Startup-mode decision: what the application should open, given the path
//! named on its command line and what the file system says about it.
//! Reading the command line and probing the file system are the host's job;
//! the decision itself is made here.

use vstd::prelude::*;

use crate::paths::{extension_of, path_extension};

verus! {

/// How the application starts: on a file, on a directory tree, or empty.
#[derive(Debug, PartialEq, Clone)]
pub enum StartupMode {
    /// Open the named file.
    OpenFile(String),
    /// Show the file tree rooted at the named directory.
    OpenDir(String),
    /// Open an empty editor window.
    Empty,
}

/// Decide the startup mode for a path.  A path with an extension is taken
/// as a file without consulting the file system; otherwise the file
/// system's answer decides, and a path that exists as neither is presumed a
/// directory, having no extension.
pub fn decide_startup_mode(path: Option<&str>, is_dir: bool, is_file: bool) -> (r: StartupMode)
    ensures
        match path {
            Some(p) => {
                &&& (extension_of(p@) is Some ==> (r matches StartupMode::OpenFile(q) && q@
                    == p@))
                &&& (extension_of(p@) is None && is_dir ==> (r matches StartupMode::OpenDir(q)
                    && q@ == p@))
                &&& (extension_of(p@) is None && !is_dir && is_file ==> (r
                    matches StartupMode::OpenFile(q) && q@ == p@))
                &&& (extension_of(p@) is None && !is_dir && !is_file ==> (r
                    matches StartupMode::OpenDir(q) && q@ == p@))
            },
            None => r == StartupMode::Empty,
        },
{
    match path {
        Some(p) => {
            if path_extension(p).is_some() {
                StartupMode::OpenFile(p.to_owned())
            } else if is_dir {
                StartupMode::OpenDir(p.to_owned())
            } else if is_file {
                StartupMode::OpenFile(p.to_owned())
            } else {
                StartupMode::OpenDir(p.to_owned())
            }
        },
        None => StartupMode::Empty,
    }
}

} // verus!
