//! Directory listings as plain values: what reading a directory gave, handed
//! in by whoever did the reading.

use vstd::prelude::*;
use crate::path::PathView;
use crate::path::same_text;

verus! {

/// The mathematical value of a [`DirEntry`].
pub struct EntryView {
    pub name: Seq<char>,
    pub is_dir: bool,
}

/// One entry of a directory: its name, and whether it is a directory itself.
#[derive(Debug, PartialEq, Eq)]
pub struct DirEntry {
    pub name: String,
    pub is_dir: bool,
}

impl View for DirEntry {
    type V = EntryView;

    open spec fn view(&self) -> EntryView {
        EntryView { name: self.name@, is_dir: self.is_dir }
    }
}

/// The views of a list of entries, in order.
pub open spec fn entry_views(entries: Seq<DirEntry>) -> Seq<EntryView> {
    Seq::new(entries.len(), |i: int| entries[i]@)
}

/// The view of what reading a directory gave: its entries, or the report of
/// the operating system.
pub open spec fn listing_view(listing: Result<Vec<DirEntry>, String>) -> Result<
    Seq<EntryView>,
    Seq<char>,
> {
    match listing {
        Ok(entries) => Ok(entry_views(entries@)),
        Err(report) => Err(report@),
    }
}

/// A file system as far as listings go: what listing each directory gives.
pub type Disk = spec_fn(PathView) -> Result<Seq<EntryView>, Seq<char>>;

/// Whether `entries` holds a file (not a directory) called `name`.
pub open spec fn lists_file(entries: Seq<EntryView>, name: Seq<char>) -> bool {
    exists|i: int| 0 <= i < entries.len() && entries[i].name == name && !entries[i].is_dir
}

/// Whether `entries` holds a directory called `name`.
pub open spec fn lists_directory(entries: Seq<EntryView>, name: Seq<char>) -> bool {
    exists|i: int| 0 <= i < entries.len() && entries[i].name == name && entries[i].is_dir
}

/// Whether `entries` holds a file (not a directory) called `name`.
pub fn holds_file(entries: &Vec<DirEntry>, name: &str) -> (held: bool)
    ensures
        held == lists_file(entry_views(entries@), name@),
{
    let mut i: usize = 0;
    while i < entries.len()
        invariant
            i <= entries.len(),
            forall|k: int|
                0 <= k < i ==> !(entry_views(entries@)[k].name == name@ && !entry_views(
                    entries@,
                )[k].is_dir),
        decreases entries.len() - i,
    {
        if !entries[i].is_dir && same_text(entries[i].name.as_str(), name) {
            assert(entry_views(entries@)[i as int].name == name@);
            return true;
        }
        i += 1;
    }
    false
}

} // verus!
