//! The container that a bookmark file holds.

use vstd::prelude::*;

use crate::bookmark::Bookmark;
use crate::category::Category;
use crate::layout::{capped, file_bytes, file_fits, FileLayout};

verus! {

/// Everything a bookmark file holds.
#[derive(Debug, Clone, PartialEq, Eq, Hash)]
pub struct File {
    /// Tags in use. Kept as given: nothing fills it from the bookmarks.
    pub tag: Vec<String>,
    /// The top-level categories, in order.
    pub category: Vec<Category>,
    /// The bookmarks, in order.
    pub bookmark: Vec<Bookmark>,
}

/// The container under the name it goes by in the data model.
pub type Data = File;

impl File {
    /// Whether the container holds no tags, categories or bookmarks.
    pub open spec fn is_empty(&self) -> bool {
        &&& self.tag@.len() == 0
        &&& self.category@.len() == 0
        &&& self.bookmark@.len() == 0
    }

    /// Creates an empty container.
    pub fn new() -> (r: Self)
        ensures
            r.is_empty(),
    {
        File { tag: Vec::new(), category: Vec::new(), bookmark: Vec::new() }
    }

    /// The bytes the container occupies in memory, counted as `file_bytes`
    /// counts them on the capacities measured now, or `usize::MAX` where that
    /// does not fit. The container is left as it is.
    pub fn storage_size(&self) -> (r: usize)
        ensures
            exists|l: FileLayout| file_fits(l, *self) && r == capped(file_bytes(l)),
    {
        let l = self.layout();
        let r = l.bytes();
        r
    }
}

impl Default for File {
    fn default() -> (r: Self)
        ensures
            r.is_empty(),
    {
        File::new()
    }
}

} // verus!
