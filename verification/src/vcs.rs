//! The version-control collaborator's data model: the repository operations
//! themselves are plain external I/O, but the classification of a working-tree
//! entry's status flags into the label a caller sees is decided here.
use vstd::prelude::*;

verus! {

/// One entry of a repository status listing: a path and its label.
#[derive(Debug)]
pub struct FileStatus {
    pub path: String,
    pub status: String,
}

/// The arguments of a commit: the repository path and the commit message.
#[derive(Debug)]
pub struct GitCommitArgs {
    pub path: String,
    pub message: String,
}

/// The status flags of one entry, as the repository reports them for the
/// index and the working tree.
#[derive(Debug)]
pub struct StatusFlags {
    pub index_new: bool,
    pub wt_new: bool,
    pub index_modified: bool,
    pub wt_modified: bool,
    pub index_deleted: bool,
    pub wt_deleted: bool,
}

/// The label an entry's flags classify to: new beats modified beats deleted,
/// in either the index or the working tree; anything else is unknown.
pub open spec fn spec_status_label(f: StatusFlags) -> Seq<char> {
    if f.index_new || f.wt_new {
        "New"@
    } else if f.index_modified || f.wt_modified {
        "Modified"@
    } else if f.index_deleted || f.wt_deleted {
        "Deleted"@
    } else {
        "Unknown"@
    }
}

/// Classifies one entry's flags into its status label.
pub fn status_label(f: &StatusFlags) -> (r: String)
    ensures
        r@ == spec_status_label(*f),
{
    if f.index_new || f.wt_new {
        String::from_str("New")
    } else if f.index_modified || f.wt_modified {
        String::from_str("Modified")
    } else if f.index_deleted || f.wt_deleted {
        String::from_str("Deleted")
    } else {
        String::from_str("Unknown")
    }
}

/// Builds the status listing entry for one path.
pub fn file_status_of(path: String, f: &StatusFlags) -> (r: FileStatus)
    ensures
        r.path == path,
        r.status@ == spec_status_label(*f),
{
    FileStatus { path, status: status_label(f) }
}

} // verus!
