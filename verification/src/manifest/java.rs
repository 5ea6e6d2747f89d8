//! The file list of a Java runtime build.
use crate::text::str_eq;
use vstd::prelude::*;

verus! {

/// One path of the runtime and what lies there.
pub struct FileEntry {
    pub path: String,
    pub element: Element,
}

pub struct Main {
    pub files: Vec<FileEntry>,
}

/// No two files of a runtime have the same path: the list is a map keyed by path.
pub open spec fn paths_unique(entries: Seq<FileEntry>) -> bool {
    forall|i: int, j: int|
        0 <= i < j < entries.len() ==> #[trigger] entries[i].path@ != #[trigger] entries[j].path@
}

impl Main {
    /// A runtime with no files.
    pub fn new() -> (r: Main)
        ensures
            r.files@.len() == 0,
            r.wf(),
    {
        Main { files: Vec::new() }
    }

    pub open spec fn wf(&self) -> bool {
        paths_unique(self.files@)
    }

    /// Files `element` under `path`: it takes the place of the entry of that
    /// path if there is one, else it is added at the end.
    pub fn insert(&mut self, path: String, element: Element)
        requires
            old(self).wf(),
        ensures
            final(self).wf(),
            (forall|i: int|
                0 <= i < old(self).files@.len() ==> old(self).files@[i].path@ != path@)
                ==> final(self).files@ == old(self).files@.push((FileEntry { path, element })),
            forall|i: int|
                0 <= i < old(self).files@.len() && old(self).files@[i].path@ == path@
                    ==> final(self).files@ == old(self).files@.update(i, (FileEntry { path, element })),
    {
        let mut i: usize = 0;
        while i < self.files.len()
            invariant
                0 <= i <= self.files.len(),
                self.files@ == old(self).files@,
                self.wf(),
                forall|k: int| 0 <= k < i ==> self.files@[k].path@ != path@,
            decreases self.files.len() - i,
        {
            if str_eq(self.files[i].path.as_str(), path.as_str()) {
                self.files.set(i, FileEntry { path, element });
                return;
            }
            i += 1;
        }
        self.files.push(FileEntry { path, element });
    }
}

/// A file, directory or link of the runtime.
pub struct Element {
    pub element_type: String,
    pub executable: bool,
    pub downloads: Option<Downloads>,
    pub target: Option<String>,
}

pub struct Downloads {
    pub lzma: Option<FileInfo>,
    pub raw: FileInfo,
}

pub struct FileInfo {
    pub sha1: String,
    pub size: u64,
    pub url: String,
}

} // verus!
