//! Rules that decide which bookmarks belong to a category.

use vstd::prelude::*;

verus! {

/// Sorting rules for a category.
///
/// The three lists are kept as given: order, empty strings and repeats
/// all stay.
#[derive(Debug, Clone, PartialEq, Eq, Hash)]
pub struct Identifier {
    /// Substrings that must all occur in the url of a bookmark for it to
    /// belong to the category.
    pub require: Vec<String>,
    /// A bookmark whose url equals one of these strings belongs to the
    /// category.
    pub whole: Vec<String>,
    /// A bookmark whose url contains one of these substrings belongs to the
    /// category.
    pub contain: Vec<String>,
}

/// The rule list under its other name.
pub type IdentifierList = Identifier;

impl Identifier {
    /// Whether no rule of any kind is set.
    pub open spec fn is_empty(&self) -> bool {
        &&& self.require@.len() == 0
        &&& self.whole@.len() == 0
        &&& self.contain@.len() == 0
    }

    /// Creates a rule list with no rules.
    pub fn new() -> (r: Self)
        ensures
            r.is_empty(),
    {
        Identifier { require: Vec::new(), whole: Vec::new(), contain: Vec::new() }
    }
}

impl Default for Identifier {
    fn default() -> (r: Self)
        ensures
            r.is_empty(),
    {
        Identifier::new()
    }
}

} // verus!
