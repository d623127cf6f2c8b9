//! A directory entry handed to the merge: a regular file's full path, its
//! base name, and its complete byte content, all read upstream.

use vstd::prelude::*;

verus! {

/// A regular file directly under the input directory. The path is the full
/// path (used to name the file in errors), the name is the base file name
/// (used for ordering and classification), and the content is the file's
/// complete byte content.
#[derive(Debug, Clone, PartialEq)]
pub struct FileEntry {
    pub path: String,
    pub name: String,
    pub content: Vec<u8>,
}

/// The mathematical value of a `FileEntry`.
pub struct EntryV {
    pub path: Seq<char>,
    pub name: Seq<char>,
    pub content: Seq<u8>,
}

impl View for FileEntry {
    type V = EntryV;

    open spec fn view(&self) -> EntryV {
        EntryV { path: self.path@, name: self.name@, content: self.content@ }
    }
}

/// The values of a sequence of entries.
pub open spec fn views_of(s: Seq<FileEntry>) -> Seq<EntryV> {
    s.map_values(|e: FileEntry| e@)
}

} // verus!
