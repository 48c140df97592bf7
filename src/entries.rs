//! What the volume parser reports of directory entries and data streams.

use vstd::prelude::*;

verus! {

/// One file or directory entry.
#[derive(Debug, Clone)]
pub struct FileInfo {
    /// File name.
    pub name: String,
    /// Size in bytes.
    pub size: u64,
    /// Whether the entry is a directory.
    pub is_directory: bool,
    /// File record number, the inode equivalent.
    pub record_number: u64,
    /// Allocated size, which may exceed the size.
    pub allocated_size: u64,
}

/// Whether a name is that of a system file: it starts with `$`.
pub open spec fn is_system_name(name: Seq<char>) -> bool {
    name.len() > 0 && name[0] == '$'
}

impl FileInfo {
    /// Whether this is a system file, named with a leading `$`.
    pub fn is_system_file(&self) -> (r: bool)
        ensures
            r == is_system_name(self.name@),
    {
        let name = self.name.as_str();
        if name.is_empty() {
            false
        } else {
            name.get_char(0) == '$'
        }
    }
}

/// One data stream of a file.
#[derive(Debug, Clone)]
pub struct StreamInfo {
    /// Stream name, empty for the default stream.
    pub name: String,
    /// Size in bytes.
    pub size: u64,
    /// Allocated size.
    pub allocated_size: u64,
}

} // verus!
