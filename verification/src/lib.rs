use vstd::prelude::*;

pub mod details;
pub mod explorer;
pub mod filter;
pub mod format;
pub mod listing;
pub mod nav;

verus! {

/// The errors the browser distinguishes. None of them is fatal: each is
/// surfaced (or, for `OpenFailed`, discarded) and the next frame goes on.
#[derive(Clone, Copy, PartialEq, Eq, Structural, Debug)]
pub enum BrowseError {
    /// A listing was asked of a path that is not a directory.
    NotADirectory,
    /// One entry's metadata could not be read; the entry is skipped.
    EntryUnreadable,
    /// The metadata for the details panel could not be read.
    DetailsUnavailable,
    /// The OS handler could not be launched for a file.
    OpenFailed,
}

/// Kind of a directory entry, resolved from metadata inspection.
#[derive(Clone, Copy, PartialEq, Eq, Structural, Debug)]
pub enum EntryKind {
    File,
    Directory,
    Symlink,
    Unknown,
}

/// Classifies an entry from its metadata flags: a directory takes
/// precedence, then a regular file, then a symlink; anything else is
/// unknown.
pub fn classify(is_dir: bool, is_file: bool, is_symlink: bool) -> (k: EntryKind)
    ensures
        k == spec_classify(is_dir, is_file, is_symlink),
{
    if is_dir {
        EntryKind::Directory
    } else if is_file {
        EntryKind::File
    } else if is_symlink {
        EntryKind::Symlink
    } else {
        EntryKind::Unknown
    }
}

/// The kind the metadata flags resolve to, in order of precedence:
/// directory, file, symlink, unknown.
pub open spec fn spec_classify(is_dir: bool, is_file: bool, is_symlink: bool) -> EntryKind {
    if is_dir {
        EntryKind::Directory
    } else if is_file {
        EntryKind::File
    } else if is_symlink {
        EntryKind::Symlink
    } else {
        EntryKind::Unknown
    }
}

} // verus!
