//! File system records handed to script code. The operations themselves
//! touch the disk and live outside the library; each is gated by
//! [`crate::permissions::Permissions`].

use vstd::prelude::*;

verus! {

/// Metadata of a file or directory.
#[derive(Debug, Clone)]
pub struct FileMetadata {
    /// Whether the path is a regular file.
    pub is_file: bool,
    /// Whether the path is a directory.
    pub is_directory: bool,
    /// Whether the path is a symbolic link.
    pub is_symlink: bool,
    /// Size in bytes.
    pub size: u64,
    /// Last modified time as a Unix timestamp.
    pub modified: Option<u64>,
    /// Last accessed time as a Unix timestamp.
    pub accessed: Option<u64>,
    /// Creation time as a Unix timestamp.
    pub created: Option<u64>,
    /// Whether the file is marked read-only.
    pub readonly: bool,
}

/// One entry of a directory listing.
#[derive(Debug, Clone)]
pub struct DirEntry {
    /// Name of the entry.
    pub name: String,
    /// Whether the entry is a file.
    pub is_file: bool,
    /// Whether the entry is a directory.
    pub is_directory: bool,
    /// Whether the entry is a symbolic link.
    pub is_symlink: bool,
}

} // verus!
