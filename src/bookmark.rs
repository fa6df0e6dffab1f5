//! Bookmarks: an address, a description, a random identity and tags.

use vstd::prelude::*;

verus! {

/// Bits that a random (version 4) UUID has fixed: the version nibble and the
/// two top bits of the variant, as `uuid::Uuid::as_u128` lays them out.
pub const UUID_FIXED_MASK: u128 = 0x0000_0000_0000_F000_C000_0000_0000_0000;

/// Values of the fixed bits of a random UUID: version 4, RFC 4122 variant.
pub const UUID_FIXED_BITS: u128 = 0x0000_0000_0000_4000_8000_0000_0000_0000;

/// Whether `id` carries the version and variant bits of a random UUID.
pub open spec fn is_random_uuid(id: u128) -> bool {
    id & UUID_FIXED_MASK == UUID_FIXED_BITS
}

/// The nil UUID is not a random one.
pub proof fn lemma_random_uuid_not_nil(id: u128)
    requires
        is_random_uuid(id),
    ensures
        id != 0,
{
    assert(id & 0x0000_0000_0000_F000_C000_0000_0000_0000u128
        == 0x0000_0000_0000_4000_8000_0000_0000_0000u128 ==> id != 0) by (bit_vector);
}

/// Relies on `uuid::Uuid::new_v4`, which draws 128 random bits from the
/// operating system and sets the version and variant bits (it panics only
/// where the system gives no random bytes), and on `Uuid::as_u128` to read the
/// bits back.
#[verifier::external_body]
fn fresh_uuid() -> (r: u128)
    ensures
        is_random_uuid(r),
{
    uuid::Uuid::new_v4().as_u128()
}

/// A bookmark.
#[derive(Debug, Clone, PartialEq, Eq, Hash)]
pub struct Bookmark {
    /// The address the bookmark points to; not checked to be a url.
    pub url: String,
    /// Description of the bookmark, often its display name.
    pub info: String,
    /// The bookmark's identity: the 128 bits of a UUID, most significant
    /// byte first. Drawn at random when the bookmark is made and kept after.
    pub uuid: u128,
    /// Tags to find the bookmark by, in order.
    pub tag: Vec<String>,
}

impl Bookmark {
    /// Creates a bookmark with the given address and description, a fresh
    /// random identity and no tags.
    pub fn new(url: String, info: String) -> (r: Self)
        ensures
            r.url == url,
            r.info == info,
            is_random_uuid(r.uuid),
            r.uuid != 0,
            r.tag@.len() == 0,
    {
        let uuid = fresh_uuid();
        proof {
            lemma_random_uuid_not_nil(uuid);
        }
        Bookmark { url, info, uuid, tag: Vec::new() }
    }
}

impl Default for Bookmark {
    /// A bookmark with empty address and description; each call draws a new
    /// identity.
    fn default() -> (r: Self)
        ensures
            r.url@.len() == 0,
            r.info@.len() == 0,
            is_random_uuid(r.uuid),
            r.uuid != 0,
            r.tag@.len() == 0,
    {
        Bookmark::new(String::new(), String::new())
    }
}

} // verus!
