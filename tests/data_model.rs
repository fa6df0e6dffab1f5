use std::collections::HashSet;

use bookmark_data::bookmark::{UUID_FIXED_BITS, UUID_FIXED_MASK};
use bookmark_data::{Bookmark, Category, File, Identifier};

#[test]
fn identifier_new_is_empty() {
    let id = Identifier::new();
    assert!(id.require.is_empty());
    assert!(id.whole.is_empty());
    assert!(id.contain.is_empty());
    assert_eq!(Identifier::default(), id);
}

#[test]
fn category_new_has_no_rules_and_no_children() {
    let c = Category::new(String::new(), String::new());
    assert_eq!(c.name, "");
    assert_eq!(c.info, "");
    assert_eq!(c.identifier, Identifier::new());
    assert!(c.subcategory.is_empty());
    assert_eq!(Category::default(), c);
}

#[test]
fn category_new_keeps_name_and_info() {
    let c = Category::new("Dev".to_string(), "programming".to_string());
    assert_eq!(c.name, "Dev");
    assert_eq!(c.info, "programming");
}

#[test]
fn bookmark_new_has_no_tags_and_a_non_nil_uuid() {
    let b = Bookmark::new(String::new(), String::new());
    assert_eq!(b.url, "");
    assert_eq!(b.info, "");
    assert!(b.tag.is_empty());
    assert_ne!(b.uuid, 0);
}

#[test]
fn bookmark_new_keeps_url_and_info() {
    let b = Bookmark::new("https://example.com".to_string(), "Example".to_string());
    assert_eq!(b.url, "https://example.com");
    assert_eq!(b.info, "Example");
}

#[test]
fn bookmark_uuid_is_a_random_uuid() {
    let b = Bookmark::new("u".to_string(), "i".to_string());
    assert_eq!(b.uuid & UUID_FIXED_MASK, UUID_FIXED_BITS);
    assert_eq!((b.uuid >> 76) & 0xf, 4);
    assert_eq!((b.uuid >> 62) & 0x3, 2);
}

#[test]
fn bookmark_default_draws_a_new_uuid_each_time() {
    let a = Bookmark::default();
    let b = Bookmark::default();
    assert_eq!(a.url, "");
    assert!(a.tag.is_empty());
    assert_ne!(a.uuid, 0);
    assert_ne!(a.uuid, b.uuid);
}

#[test]
fn bookmark_uuids_do_not_collide() {
    let mut seen = HashSet::new();
    for n in 0..10_000 {
        let b = if n % 2 == 0 {
            Bookmark::new(format!("https://example.com/{n}"), String::new())
        } else {
            Bookmark::default()
        };
        assert!(seen.insert(b.uuid));
    }
    assert_eq!(seen.len(), 10_000);
}

#[test]
fn file_new_is_empty() {
    let f = File::new();
    assert!(f.tag.is_empty());
    assert!(f.category.is_empty());
    assert!(f.bookmark.is_empty());
    assert_eq!(File::default(), f);
}

#[test]
fn example_container_shape() {
    let mut dev = Category::new("Dev".to_string(), String::new());
    dev.subcategory.push(Category::new("Rust".to_string(), String::new()));
    let mut f = File::new();
    f.category.push(dev);
    f.bookmark.push(Bookmark::new("https://example.com".to_string(), "Example".to_string()));
    assert_eq!(f.category.len(), 1);
    assert_eq!(f.category[0].subcategory.len(), 1);
    assert_eq!(f.category[0].subcategory[0].name, "Rust");
    assert_eq!(f.bookmark.len(), 1);
    assert_eq!(f.bookmark[0].url, "https://example.com");
}

#[test]
fn structural_equality_covers_nested_categories() {
    let mut a = Category::new("a".to_string(), String::new());
    a.subcategory.push(Category::new("b".to_string(), String::new()));
    let mut b = Category::new("a".to_string(), String::new());
    b.subcategory.push(Category::new("b".to_string(), String::new()));
    assert_eq!(a, b);
    b.subcategory[0].identifier.whole.push("x".to_string());
    assert_ne!(a, b);
}
