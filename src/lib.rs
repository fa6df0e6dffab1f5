//! The stored data of a bookmark manager: bookmarks, a tree of categories with
//! the rules that decide their members, and a container that holds them all,
//! with an account of the bytes they occupy in memory.

pub mod bookmark;
pub mod category;
pub mod file;
pub mod identifier;
pub mod layout;

pub use bookmark::Bookmark;
pub use category::Category;
pub use file::{Data, File};
pub use identifier::{Identifier, IdentifierList};
