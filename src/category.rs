//! Categories: a tree of named groups, each with its membership rules.

use vstd::prelude::*;

use crate::identifier::Identifier;

verus! {

/// A category: a name, a description, the rules that decide its members and
/// the categories nested under it.
#[derive(Debug, PartialEq, Eq, Hash)]
pub struct Category {
    /// Name of the category.
    pub name: String,
    /// Description of the category.
    pub info: String,
    /// The rules that decide which bookmarks belong to the category.
    pub identifier: Identifier,
    /// Categories nested under this one, in order.
    pub subcategory: Vec<Category>,
}

impl Category {
    /// Creates a category with the given name and description, no rules and
    /// no subcategories.
    pub fn new(name: String, info: String) -> (r: Self)
        ensures
            r.name == name,
            r.info == info,
            r.identifier.is_empty(),
            r.subcategory@.len() == 0,
    {
        Category { name, info, identifier: Identifier::new(), subcategory: Vec::new() }
    }
}

impl Clone for Category {
    /// A copy of the category and of every category under it.
    fn clone(&self) -> (r: Self)
        ensures
            r.name == self.name,
            r.info == self.info,
            r.subcategory@.len() == self.subcategory@.len(),
        decreases self,
    {
        let mut subcategory: Vec<Category> = Vec::new();
        let mut i: usize = 0;
        while i < self.subcategory.len()
            invariant
                i <= self.subcategory@.len(),
                subcategory@.len() == i,
            decreases self.subcategory@.len() - i,
        {
            subcategory.push(self.subcategory[i].clone());
            i += 1;
        }
        Category {
            name: self.name.clone(),
            info: self.info.clone(),
            identifier: self.identifier.clone(),
            subcategory,
        }
    }
}

impl Default for Category {
    fn default() -> (r: Self)
        ensures
            r.name@.len() == 0,
            r.info@.len() == 0,
            r.identifier.is_empty(),
            r.subcategory@.len() == 0,
    {
        Category::new(String::new(), String::new())
    }
}

} // verus!
