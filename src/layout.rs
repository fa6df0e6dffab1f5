//! How many bytes the data occupies in memory.
//!
//! The count follows the memory the values really hold: a string counts its
//! capacity, not its length, and a list counts the room it has reserved for
//! its elements. An element's value lies in that room, so inside a list each
//! element adds only what it holds outside itself (its heap bytes); a value
//! measured alone adds its own size once. Capacities are what the allocator handed out, so they are
//! measured: a layout records them for one value, and the totals below are
//! computed from a layout. A total that does not fit in `usize` is reported as
//! `usize::MAX`.

use vstd::layout::size_of;
use vstd::prelude::*;

use crate::bookmark::Bookmark;
use crate::category::Category;
use crate::file::File;
use crate::identifier::Identifier;

verus! {

/// Relies on `String::capacity`: the bytes the string has room for, which
/// are never fewer than the bytes it holds, and so never fewer than its
/// characters.
#[verifier::external_body]
fn string_capacity(s: &String) -> (r: usize)
    ensures
        r >= s@.len(),
{
    s.capacity()
}

/// Relies on `Vec::capacity`: the elements the vector has room for, never
/// fewer than it holds.
#[verifier::external_body]
fn vec_capacity<T>(v: &Vec<T>) -> (r: usize)
    ensures
        r >= v@.len(),
{
    v.capacity()
}

/// `x`, or `usize::MAX` where `x` does not fit.
pub open spec fn capped(x: nat) -> usize {
    if x < usize::MAX {
        x as usize
    } else {
        usize::MAX
    }
}

/// `n * w`, or `usize::MAX` where the product does not fit.
fn mul_capped(n: usize, w: usize) -> (r: usize)
    ensures
        r == capped((n * w) as nat),
{
    match n.checked_mul(w) {
        Some(p) => p,
        None => usize::MAX,
    }
}

/// The sum of a sequence of numbers.
pub open spec fn sum(s: Seq<usize>) -> nat
    decreases s.len(),
{
    if s.len() == 0 {
        0
    } else {
        (sum(s.drop_last()) + s.last()) as nat
    }
}

/// Capacities measured on a list of strings.
pub struct ListLayout {
    /// Strings the list has room for.
    pub slots: usize,
    /// Bytes each string has room for, in the list's order.
    pub items: Vec<usize>,
}

/// Capacities measured on a rule list.
pub struct IdentifierLayout {
    pub require: ListLayout,
    pub whole: ListLayout,
    pub contain: ListLayout,
}

/// Capacities measured on a bookmark.
pub struct BookmarkLayout {
    pub url: usize,
    pub info: usize,
    pub tag: ListLayout,
}

/// Capacities measured on a category and the categories under it.
pub struct CategoryLayout {
    pub name: usize,
    pub info: usize,
    pub identifier: IdentifierLayout,
    /// Subcategories the list of subcategories has room for.
    pub slots: usize,
    /// The layout of each subcategory, in order.
    pub children: Vec<CategoryLayout>,
}

/// Capacities measured on a whole container.
pub struct FileLayout {
    pub tag: ListLayout,
    /// Categories the top-level list has room for.
    pub category_slots: usize,
    pub category: Vec<CategoryLayout>,
    /// Bookmarks the list of bookmarks has room for.
    pub bookmark_slots: usize,
    pub bookmark: Vec<BookmarkLayout>,
}

/// Whether `l` can be the layout of the strings `v`: one capacity for each,
/// none below what it holds.
pub open spec fn list_fits(l: ListLayout, v: Seq<String>) -> bool {
    &&& l.slots >= v.len()
    &&& l.items@.len() == v.len()
    &&& forall|i: int| 0 <= i < v.len() ==> l.items@[i] >= v[i]@.len()
}

pub open spec fn identifier_fits(l: IdentifierLayout, id: Identifier) -> bool {
    &&& list_fits(l.require, id.require@)
    &&& list_fits(l.whole, id.whole@)
    &&& list_fits(l.contain, id.contain@)
}

pub open spec fn bookmark_fits(l: BookmarkLayout, b: Bookmark) -> bool {
    &&& l.url >= b.url@.len()
    &&& l.info >= b.info@.len()
    &&& list_fits(l.tag, b.tag@)
}

pub open spec fn category_fits(l: CategoryLayout, c: Category) -> bool
    decreases c,
{
    &&& l.name >= c.name@.len()
    &&& l.info >= c.info@.len()
    &&& identifier_fits(l.identifier, c.identifier)
    &&& l.slots >= c.subcategory@.len()
    &&& l.children@.len() == c.subcategory@.len()
    &&& forall|i: int|
        0 <= i < c.subcategory@.len() ==> category_fits(
            #[trigger] l.children@[i],
            c.subcategory@[i],
        )
}

pub open spec fn file_fits(l: FileLayout, f: File) -> bool {
    &&& list_fits(l.tag, f.tag@)
    &&& l.category_slots >= f.category@.len()
    &&& l.category@.len() == f.category@.len()
    &&& forall|i: int|
        0 <= i < f.category@.len() ==> category_fits(#[trigger] l.category@[i], f.category@[i])
    &&& l.bookmark_slots >= f.bookmark@.len()
    &&& l.bookmark@.len() == f.bookmark@.len()
    &&& forall|i: int|
        0 <= i < f.bookmark@.len() ==> bookmark_fits(#[trigger] l.bookmark@[i], f.bookmark@[i])
}

/// Bytes of a list of strings: its reserved slots, and each string's room.
pub open spec fn list_bytes(l: ListLayout) -> nat {
    (l.slots * size_of::<String>() + sum(l.items@)) as nat
}

/// Bytes of a rule list outside the value itself: its three lists.
pub open spec fn identifier_bytes(l: IdentifierLayout) -> nat {
    (list_bytes(l.require) + list_bytes(l.whole) + list_bytes(l.contain)) as nat
}

/// Bytes a bookmark holds outside the value itself: its address, its
/// description and its tags. This is what a bookmark adds to the list that
/// holds it, whose reserved room already counts the value itself.
pub open spec fn bookmark_heap(l: BookmarkLayout) -> nat {
    (l.url + l.info + list_bytes(l.tag)) as nat
}

/// Bytes of a bookmark standing alone: the value itself and its heap.
pub open spec fn bookmark_bytes(l: BookmarkLayout) -> nat {
    size_of::<Bookmark>() + bookmark_heap(l)
}

/// Bytes a category holds outside the value itself: its name, its
/// description, its rules, the room of its list of subcategories and the
/// heap of each subcategory. This is what a category adds to the list that
/// holds it, whose reserved room already counts the value itself.
pub open spec fn category_heap(l: CategoryLayout) -> nat
    decreases l, 0nat,
{
    (l.name + l.info + identifier_bytes(l.identifier) + l.slots
        * size_of::<Category>() + categories_heap(l.children@, l.children@.len())) as nat
}

/// Bytes of a category standing alone: the value itself and its heap.
pub open spec fn category_bytes(l: CategoryLayout) -> nat {
    size_of::<Category>() + category_heap(l)
}

/// Heap bytes of the first `n` categories of `s`.
pub open spec fn categories_heap(s: Seq<CategoryLayout>, n: nat) -> nat
    decreases s, n,
{
    if n == 0 || n > s.len() {
        0
    } else {
        (categories_heap(s, (n - 1) as nat) + category_heap(s[n - 1])) as nat
    }
}

/// Heap bytes of a sequence of bookmarks.
pub open spec fn bookmarks_heap(s: Seq<BookmarkLayout>) -> nat
    decreases s.len(),
{
    if s.len() == 0 {
        0
    } else {
        (bookmarks_heap(s.drop_last()) + bookmark_heap(s.last())) as nat
    }
}

/// Bytes of a container: the value itself, its tags, the room of its two
/// lists, and the heap of each category and each bookmark.
pub open spec fn file_bytes(l: FileLayout) -> nat {
    (size_of::<File>() + list_bytes(l.tag) + l.category_slots * size_of::<Category>()
        + categories_heap(l.category@, l.category@.len()) + l.bookmark_slots * size_of::<
        Bookmark,
    >() + bookmarks_heap(l.bookmark@)) as nat
}


/// Measures a list of strings.
pub fn list_layout(v: &Vec<String>) -> (r: ListLayout)
    ensures
        list_fits(r, v@),
{
    let mut items: Vec<usize> = Vec::new();
    let mut i: usize = 0;
    while i < v.len()
        invariant
            i <= v@.len(),
            items@.len() == i,
            forall|j: int| 0 <= j < i ==> items@[j] >= v@[j]@.len(),
        decreases v@.len() - i,
    {
        items.push(string_capacity(&v[i]));
        i += 1;
    }
    ListLayout { slots: vec_capacity(v), items }
}

impl ListLayout {
    /// The bytes of the list, as `list_bytes` counts them.
    pub fn bytes(&self) -> (r: usize)
        ensures
            r == capped(list_bytes(*self)),
    {
        let mut acc: usize = mul_capped(self.slots, core::mem::size_of::<String>());
        let mut i: usize = 0;
        while i < self.items.len()
            invariant
                i <= self.items@.len(),
                acc == capped((self.slots * size_of::<String>() + sum(self.items@.take(i as int))) as nat),
            decreases self.items@.len() - i,
        {
            assert(self.items@.take(i + 1).drop_last() =~= self.items@.take(i as int));
            acc = acc.saturating_add(self.items[i]);
            i += 1;
        }
        assert(self.items@.take(i as int) =~= self.items@);
        acc
    }
}

impl Identifier {
    /// Measures the rule list.
    pub fn layout(&self) -> (r: IdentifierLayout)
        ensures
            identifier_fits(r, *self),
    {
        IdentifierLayout {
            require: list_layout(&self.require),
            whole: list_layout(&self.whole),
            contain: list_layout(&self.contain),
        }
    }

    /// The bytes the rule list holds outside the value itself, counted as
    /// `identifier_bytes` counts them on the capacities measured now.
    pub fn deep_size_of(&self) -> (r: usize)
        ensures
            exists|l: IdentifierLayout| identifier_fits(l, *self) && r == capped(identifier_bytes(l)),
    {
        self.layout().bytes()
    }
}

impl IdentifierLayout {
    /// The bytes of the rule list, as `identifier_bytes` counts them.
    pub fn bytes(&self) -> (r: usize)
        ensures
            r == capped(identifier_bytes(*self)),
    {
        self.require.bytes().saturating_add(self.whole.bytes()).saturating_add(
            self.contain.bytes(),
        )
    }
}

impl Bookmark {
    /// Measures the bookmark.
    pub fn layout(&self) -> (r: BookmarkLayout)
        ensures
            bookmark_fits(r, *self),
    {
        BookmarkLayout {
            url: string_capacity(&self.url),
            info: string_capacity(&self.info),
            tag: list_layout(&self.tag),
        }
    }

    /// The bytes the bookmark occupies standing alone, counted as
    /// `bookmark_bytes` counts them on the capacities measured now.
    pub fn deep_size_of(&self) -> (r: usize)
        ensures
            exists|l: BookmarkLayout| bookmark_fits(l, *self) && r == capped(bookmark_bytes(l)),
    {
        self.layout().bytes()
    }
}

impl BookmarkLayout {
    /// The bytes the bookmark holds outside the value itself, as
    /// `bookmark_heap` counts them.
    pub fn heap_bytes(&self) -> (r: usize)
        ensures
            r == capped(bookmark_heap(*self)),
    {
        self.url.saturating_add(self.info).saturating_add(self.tag.bytes())
    }

    /// The bytes of the bookmark standing alone, as `bookmark_bytes` counts
    /// them.
    pub fn bytes(&self) -> (r: usize)
        ensures
            r == capped(bookmark_bytes(*self)),
    {
        core::mem::size_of::<Bookmark>().saturating_add(self.heap_bytes())
    }
}

impl Category {
    /// Measures the category and every category under it.
    pub fn layout(&self) -> (r: CategoryLayout)
        ensures
            category_fits(r, *self),
        decreases self,
    {
        let mut children: Vec<CategoryLayout> = Vec::new();
        let mut i: usize = 0;
        while i < self.subcategory.len()
            invariant
                i <= self.subcategory@.len(),
                children@.len() == i,
                forall|j: int|
                    0 <= j < i ==> category_fits(#[trigger] children@[j], self.subcategory@[j]),
            decreases self.subcategory@.len() - i,
        {
            let child = self.subcategory[i].layout();
            children.push(child);
            i += 1;
        }
        CategoryLayout {
            name: string_capacity(&self.name),
            info: string_capacity(&self.info),
            identifier: self.identifier.layout(),
            slots: vec_capacity(&self.subcategory),
            children,
        }
    }

    /// The bytes the category and all under it occupy standing alone,
    /// counted as `category_bytes` counts them on the capacities measured now.
    pub fn deep_size_of(&self) -> (r: usize)
        ensures
            exists|l: CategoryLayout| category_fits(l, *self) && r == capped(category_bytes(l)),
    {
        self.layout().bytes()
    }
}

/// The heap bytes of the categories `s`, as `categories_heap` counts them.
pub fn categories_heap_of(s: &Vec<CategoryLayout>) -> (r: usize)
    ensures
        r == capped(categories_heap(s@, s@.len())),
    decreases s@, 1nat,
{
    let mut acc: usize = 0;
    let mut i: usize = 0;
    while i < s.len()
        invariant
            i <= s@.len(),
            acc == capped(categories_heap(s@, i as nat)),
        decreases s@.len() - i,
    {
        let b = s[i].heap_bytes();
        acc = acc.saturating_add(b);
        i += 1;
    }
    acc
}

impl CategoryLayout {
    /// The bytes the category and every category under it hold outside the
    /// value itself, as `category_heap` counts them.
    pub fn heap_bytes(&self) -> (r: usize)
        ensures
            r == capped(category_heap(*self)),
        decreases self, 0nat,
    {
        let children = categories_heap_of(&self.children);
        self.name.saturating_add(self.info).saturating_add(self.identifier.bytes()).saturating_add(
            mul_capped(self.slots, core::mem::size_of::<Category>()),
        ).saturating_add(children)
    }

    /// The bytes of the category standing alone, as `category_bytes` counts
    /// them.
    pub fn bytes(&self) -> (r: usize)
        ensures
            r == capped(category_bytes(*self)),
    {
        core::mem::size_of::<Category>().saturating_add(self.heap_bytes())
    }
}

impl File {
    /// Measures the container and everything in it.
    pub fn layout(&self) -> (r: FileLayout)
        ensures
            file_fits(r, *self),
    {
        let mut category: Vec<CategoryLayout> = Vec::new();
        let mut i: usize = 0;
        while i < self.category.len()
            invariant
                i <= self.category@.len(),
                category@.len() == i,
                forall|j: int|
                    0 <= j < i ==> category_fits(#[trigger] category@[j], self.category@[j]),
            decreases self.category@.len() - i,
        {
            category.push(self.category[i].layout());
            i += 1;
        }
        let mut bookmark: Vec<BookmarkLayout> = Vec::new();
        let mut k: usize = 0;
        while k < self.bookmark.len()
            invariant
                k <= self.bookmark@.len(),
                bookmark@.len() == k,
                forall|j: int|
                    0 <= j < k ==> bookmark_fits(#[trigger] bookmark@[j], self.bookmark@[j]),
            decreases self.bookmark@.len() - k,
        {
            bookmark.push(self.bookmark[k].layout());
            k += 1;
        }
        FileLayout {
            tag: list_layout(&self.tag),
            category_slots: vec_capacity(&self.category),
            category,
            bookmark_slots: vec_capacity(&self.bookmark),
            bookmark,
        }
    }
}

impl FileLayout {
    /// The bytes of the container, as `file_bytes` counts them.
    pub fn bytes(&self) -> (r: usize)
        ensures
            r == capped(file_bytes(*self)),
    {
        let mut marks: usize = 0;
        let mut i: usize = 0;
        while i < self.bookmark.len()
            invariant
                i <= self.bookmark@.len(),
                marks == capped(bookmarks_heap(self.bookmark@.take(i as int))),
            decreases self.bookmark@.len() - i,
        {
            assert(self.bookmark@.take(i + 1).drop_last() =~= self.bookmark@.take(i as int));
            marks = marks.saturating_add(self.bookmark[i].heap_bytes());
            i += 1;
        }
        assert(self.bookmark@.take(i as int) =~= self.bookmark@);
        core::mem::size_of::<File>().saturating_add(self.tag.bytes()).saturating_add(
            mul_capped(self.category_slots, core::mem::size_of::<Category>()),
        ).saturating_add(categories_heap_of(&self.category)).saturating_add(
            mul_capped(self.bookmark_slots, core::mem::size_of::<Bookmark>()),
        ).saturating_add(marks)
    }
}

/// Inserting a bookmark anywhere in a sequence adds exactly its heap bytes.
pub proof fn lemma_bookmarks_heap_insert(s: Seq<BookmarkLayout>, i: int, b: BookmarkLayout)
    requires
        0 <= i <= s.len(),
    ensures
        bookmarks_heap(s.insert(i, b)) == bookmarks_heap(s) + bookmark_heap(b),
    decreases s.len(),
{
    if i == s.len() {
        assert(s.insert(i, b).drop_last() =~= s);
    } else {
        assert(s.insert(i, b).drop_last() =~= s.drop_last().insert(i, b));
        lemma_bookmarks_heap_insert(s.drop_last(), i, b);
    }
}

/// The heap bytes of the first `n` categories depend on those categories alone.
pub proof fn lemma_categories_heap_prefix(s: Seq<CategoryLayout>, t: Seq<CategoryLayout>, n: nat)
    requires
        n <= s.len(),
        n <= t.len(),
        forall|j: int| 0 <= j < n ==> s[j] == t[j],
    ensures
        categories_heap(s, n) == categories_heap(t, n),
    decreases n,
{
    if n > 0 {
        lemma_categories_heap_prefix(s, t, (n - 1) as nat);
    }
}

/// Inserting a category anywhere in a sequence adds exactly its heap bytes.
pub proof fn lemma_categories_heap_insert(s: Seq<CategoryLayout>, i: int, c: CategoryLayout)
    requires
        0 <= i <= s.len(),
    ensures
        categories_heap(s.insert(i, c), s.len() + 1) == categories_heap(s, s.len()) + category_heap(c),
{
    lemma_categories_heap_insert_upto(s, i, c, (s.len() + 1) as nat);
}

proof fn lemma_categories_heap_insert_upto(s: Seq<CategoryLayout>, i: int, c: CategoryLayout, n: nat)
    requires
        0 <= i < n <= s.len() + 1,
    ensures
        categories_heap(s.insert(i, c), n) == categories_heap(s, (n - 1) as nat) + category_heap(c),
    decreases n,
{
    let t = s.insert(i, c);
    if n == i + 1 {
        lemma_categories_heap_prefix(t, s, i as nat);
    } else {
        lemma_categories_heap_insert_upto(s, i, c, (n - 1) as nat);
        assert(t[n - 1] == s[n - 2]);
    }
}

/// Adding a bookmark to a container adds exactly the bookmark's heap bytes
/// and the room its list has gained.
///
/// `before` and `after` are layouts of a container without and with the
/// bookmark `b`, inserted at place `i`; all else is measured as before, and
/// the list of bookmarks has not lost room. The bytes grow by the heap bytes
/// of `b` and by the value size of each slot gained, so strictly where its
/// address is not empty. Read the other way round, removing a bookmark from a
/// list that keeps its room takes exactly its heap bytes away.
pub proof fn lemma_bookmark_added(
    before: FileLayout,
    after: FileLayout,
    i: int,
    added: BookmarkLayout,
    b: Bookmark,
)
    requires
        0 <= i <= before.bookmark@.len(),
        bookmark_fits(added, b),
        after.tag == before.tag,
        after.category_slots == before.category_slots,
        after.category@ == before.category@,
        after.bookmark_slots >= before.bookmark_slots,
        after.bookmark@ == before.bookmark@.insert(i, added),
    ensures
        file_bytes(after) == file_bytes(before) + bookmark_heap(added) + (after.bookmark_slots
            - before.bookmark_slots) * size_of::<Bookmark>(),
        file_bytes(after) >= file_bytes(before) + bookmark_heap(added),
        after.bookmark_slots == before.bookmark_slots ==> file_bytes(after) == file_bytes(before)
            + bookmark_heap(added),
        b.url@.len() > 0 ==> file_bytes(after) > file_bytes(before),
        b.url@.len() > 0 && file_bytes(after) < usize::MAX ==> capped(file_bytes(after)) > capped(
            file_bytes(before),
        ),
{
    lemma_bookmarks_heap_insert(before.bookmark@, i, added);
    lemma_slots_grow(before.bookmark_slots, after.bookmark_slots, size_of::<Bookmark>());
}

/// Adding a category to a container adds exactly the category's heap bytes
/// and the room its list has gained.
///
/// `before` and `after` are layouts of a container without and with a
/// top-level category `c`, inserted at place `i`; all else is measured as
/// before, and the list of categories has not lost room. The bytes grow by
/// the heap bytes of `c` and all under it and by the value size of each slot
/// gained, so strictly where its name is not empty. Read the other way round,
/// removing a category from a list that keeps its room takes exactly its heap
/// bytes away.
pub proof fn lemma_category_added(
    before: FileLayout,
    after: FileLayout,
    i: int,
    added: CategoryLayout,
    c: Category,
)
    requires
        0 <= i <= before.category@.len(),
        category_fits(added, c),
        after.tag == before.tag,
        after.bookmark_slots == before.bookmark_slots,
        after.bookmark@ == before.bookmark@,
        after.category_slots >= before.category_slots,
        after.category@ == before.category@.insert(i, added),
    ensures
        file_bytes(after) == file_bytes(before) + category_heap(added) + (after.category_slots
            - before.category_slots) * size_of::<Category>(),
        file_bytes(after) >= file_bytes(before) + category_heap(added),
        after.category_slots == before.category_slots ==> file_bytes(after) == file_bytes(before)
            + category_heap(added),
        c.name@.len() > 0 ==> file_bytes(after) > file_bytes(before),
        c.name@.len() > 0 && file_bytes(after) < usize::MAX ==> capped(file_bytes(after)) > capped(
            file_bytes(before),
        ),
{
    lemma_categories_heap_insert(before.category@, i, added);
    lemma_slots_grow(before.category_slots, after.category_slots, size_of::<Category>());
}

/// More room reserved in a list never counts fewer bytes.
proof fn lemma_slots_grow(a: usize, b: usize, w: nat)
    requires
        a <= b,
    ensures
        a * w <= b * w,
        b * w == a * w + (b - a) * w,
{
    assert(a * w <= b * w && b * w == a * w + (b - a) * w) by (nonlinear_arith)
        requires
            a <= b,
            w >= 0,
    ;
}

} // verus!
