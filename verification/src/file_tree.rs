//! File-tree data: the nodes of a directory tree view and the messages a
//! background directory loader sends to the front end.  Scanning the file
//! system itself is the host's job; this module holds the data the scan
//! produces.

use vstd::prelude::*;

use crate::paths::{file_name_of, path_file_name};

verus! {

/// A node of the file tree: a file or directory, its display name (the last
/// path component), its children, and the error that stopped its listing,
/// if one did.
#[derive(Debug)]
pub struct FileTreeNode {
    pub path: String,
    pub name: String,
    pub is_dir: bool,
    pub children: Vec<FileTreeNode>,
    pub error: Option<String>,
}

impl FileTreeNode {
    /// A fresh node for `path`, with no children and no error.
    pub fn new(path: &str, is_dir: bool) -> (r: Self)
        ensures
            r.path@ == path@,
            r.name@ == file_name_of(path@),
            r.is_dir == is_dir,
            r.children@.len() == 0,
            r.error is None,
    {
        let name = path_file_name(path);
        Self {
            path: path.to_owned(),
            name,
            is_dir,
            children: Vec::new(),
            error: None,
        }
    }

    /// A directory node whose listing failed with `error`.
    pub fn with_error(path: &str, error: String) -> (r: Self)
        ensures
            r.path@ == path@,
            r.name@ == file_name_of(path@),
            r.is_dir,
            r.children@.len() == 0,
            r.error == Some(error),
    {
        let name = path_file_name(path);
        Self {
            path: path.to_owned(),
            name,
            is_dir: true,
            children: Vec::new(),
            error: Some(error),
        }
    }
}

/// A message from the background directory loader to the front end.
#[derive(Debug)]
pub enum LoadMessage {
    /// One directory's contents were listed.
    DirectoryLoaded { path: String, nodes: Vec<FileTreeNode> },
    /// Listing a directory failed.
    Error { path: String, error: String },
    /// The whole scan finished.
    Complete,
}

} // verus!
