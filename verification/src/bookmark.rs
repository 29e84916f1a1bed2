//! The leaf entry of a bookmark tree: one shortcut with its address,
//! its label and its string-encoded timestamps.

use vstd::prelude::*;
use crate::dom::{attr_or_empty, text_of, Node, NodeView};

verus! {

/// One bookmark shortcut.
///
/// Every field is tolerated empty: a builder reading an anchor without an
/// address still produces an entry, with `href` empty.  Timestamps are
/// carried verbatim as strings; the library does not interpret them.
#[derive(Debug)]
pub struct Bookmark {
    pub href: String,
    pub title: String,
    pub add_date: String,
    pub last_visit: String,
    pub last_modified: String,
}

/// The mathematical value of a [`Bookmark`].
pub struct BookmarkView {
    pub href: Seq<char>,
    pub title: Seq<char>,
    pub add_date: Seq<char>,
    pub last_visit: Seq<char>,
    pub last_modified: Seq<char>,
}

impl View for Bookmark {
    type V = BookmarkView;

    open spec fn view(&self) -> BookmarkView {
        BookmarkView {
            href: self.href@,
            title: self.title@,
            add_date: self.add_date@,
            last_visit: self.last_visit@,
            last_modified: self.last_modified@,
        }
    }
}

impl DeepView for Bookmark {
    type V = BookmarkView;

    open spec fn deep_view(&self) -> BookmarkView {
        self.view()
    }
}

/// The entry that an anchor-like node denotes: its address and timestamp
/// attributes, each empty when absent, and its text as the title.
pub open spec fn bookmark_of(n: NodeView) -> BookmarkView {
    BookmarkView {
        href: attr_or_empty(n, "href"@),
        title: text_of(n),
        add_date: attr_or_empty(n, "add_date"@),
        last_visit: attr_or_empty(n, "last_visit"@),
        last_modified: attr_or_empty(n, "last_modified"@),
    }
}

impl Bookmark {
    /// Builds the entry that `node` denotes.  Building never fails: a
    /// missing attribute becomes the empty string.
    pub fn from_node(node: &Node) -> (r: Bookmark)
        ensures
            r@ == bookmark_of(node@),
    {
        Bookmark {
            href: node.attribute_or_empty("href"),
            title: node.text_content(),
            add_date: node.attribute_or_empty("add_date"),
            last_visit: node.attribute_or_empty("last_visit"),
            last_modified: node.attribute_or_empty("last_modified"),
        }
    }
}

/// Equality of bookmark values: every field agrees.
pub open spec fn bookmark_sim(a: BookmarkView, b: BookmarkView) -> bool {
    a.href == b.href && a.title == b.title && a.add_date == b.add_date && a.last_visit
        == b.last_visit && a.last_modified == b.last_modified
}

impl PartialEq for Bookmark {
    fn eq(&self, other: &Self) -> bool {
        self.href == other.href && self.title == other.title && self.add_date == other.add_date
            && self.last_visit == other.last_visit && self.last_modified == other.last_modified
    }
}

impl vstd::std_specs::cmp::PartialEqSpecImpl for Bookmark {
    open spec fn obeys_eq_spec() -> bool {
        true
    }

    open spec fn eq_spec(&self, other: &Bookmark) -> bool {
        bookmark_sim(self@, other@)
    }
}

} // verus!
