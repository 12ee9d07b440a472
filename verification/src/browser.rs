//! Directory entries as the file browser shows them. Reading a
//! directory belongs to the shell; the entries it hands back are plain
//! values the browser state navigates over.

use vstd::prelude::*;

verus! {

/// One entry of a directory listing.
#[derive(Debug, Clone)]
pub struct FileEntry {
    /// The entry's file name.
    pub name: String,
    /// Its full path.
    pub path: String,
    /// Whether it is a directory.
    pub is_dir: bool,
}

impl FileEntry {
    /// An equal copy of the entry.
    pub fn duplicate(&self) -> (r: FileEntry)
        ensures r == *self,
    {
        FileEntry {
            name: self.name.clone(),
            path: self.path.clone(),
            is_dir: self.is_dir,
        }
    }
}

} // verus!
