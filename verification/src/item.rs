//! The members of a folder or of a document: either a nested folder or a
//! single shortcut.  Deciding which of the two a markup node denotes —
//! or that it denotes neither and is to be skipped — is the variant
//! resolver below.

use vstd::prelude::*;
use crate::bookmark::{bookmark_of, bookmark_sim, Bookmark, BookmarkView};
use crate::dom::{
    find_named, first_named, is_element_named, node_children, node_size, nodes_size, nodes_view,
    Node, NodeView,
};
use crate::folder::{folder_eq, folder_of, folder_sim, Folder, FolderView};

verus! {

/// One member of a folder or of a document.
///
/// The sum is closed: a node of any other shape produces no item at all
/// and is dropped by the builders, so no "unknown" variant exists here.
#[derive(Debug)]
pub enum Item {
    Subfolder(Folder),
    Shortcut(Bookmark),
}

/// The mathematical value of an [`Item`].
pub enum ItemView {
    Subfolder(FolderView),
    Shortcut(BookmarkView),
}

impl View for Item {
    type V = ItemView;

    open spec fn view(&self) -> ItemView
        decreases self,
    {
        match self {
            Item::Subfolder(f) => ItemView::Subfolder(f@),
            Item::Shortcut(b) => ItemView::Shortcut(b@),
        }
    }
}

impl DeepView for Item {
    type V = ItemView;

    open spec fn deep_view(&self) -> ItemView {
        self.view()
    }
}

/// The values of a sequence of items.  The out-of-range arm is never
/// read; it only keeps the closure total, as termination checking asks.
pub open spec fn items_view(s: Seq<Item>) -> Seq<ItemView>
    decreases s,
{
    Seq::new(
        s.len(),
        |i: int|
            if 0 <= i < s.len() {
                s[i]@
            } else {
                arbitrary::<ItemView>()
            },
    )
}

/// The item that the node `n` denotes, with `sib[k..]` its following
/// siblings: a folder where `n` is a folder header or wraps one, a
/// shortcut where `n` is an anchor or wraps one, and nothing otherwise.
/// An unrecognized node is no error; it merely produces no item.
pub open spec fn item_of(n: NodeView, sib: Seq<NodeView>, k: int) -> Option<ItemView>
    decreases node_size(n) + nodes_size(sib, k), 1int,
{
    match folder_of(n, sib, k) {
        Some(f) => Some(ItemView::Subfolder(f)),
        None => {
            if is_element_named(n, "a"@) {
                Some(ItemView::Shortcut(bookmark_of(n)))
            } else if is_element_named(n, "dt"@) {
                match first_named(node_children(n), "a"@, 0) {
                    Some(j) => Some(ItemView::Shortcut(bookmark_of(node_children(n)[j]))),
                    None => None,
                }
            } else {
                None
            }
        },
    }
}

/// The items that the nodes `s[i..]` denote, in document order; nodes
/// that denote none are dropped.
pub open spec fn items_of(s: Seq<NodeView>, i: int) -> Seq<ItemView>
    decreases nodes_size(s, i), 2int,
    via items_of_dec
{
    if 0 <= i < s.len() {
        match item_of(s[i], s, i + 1) {
            Some(it) => seq![it] + items_of(s, i + 1),
            None => items_of(s, i + 1),
        }
    } else {
        Seq::empty()
    }
}

#[via_fn]
proof fn items_of_dec(s: Seq<NodeView>, i: int) {
    if 0 <= i < s.len() {
        assert(nodes_size(s, i) == node_size(s[i]) + nodes_size(s, i + 1));
        assert(node_size(s[i]) >= 1);
    }
}

impl Item {
    /// Resolves the node `node` — whose following siblings are
    /// `siblings[start..]` — to the item it denotes, or to `None` where
    /// its shape is not recognized.
    pub fn from_node(node: &Node, siblings: &Vec<Node>, start: usize) -> (r: Option<Item>)
        requires
            start <= siblings@.len(),
        ensures
            match r {
                Some(it) => item_of(node@, nodes_view(siblings@), start as int) == Some(it@),
                None => item_of(node@, nodes_view(siblings@), start as int) is None,
            },
        decreases node_size(node@) + nodes_size(nodes_view(siblings@), start as int), 1int,
    {
        match Folder::from_node(node, siblings, start) {
            Some(f) => Some(Item::Subfolder(f)),
            None => {
                if node.is_element("a") {
                    Some(Item::Shortcut(Bookmark::from_node(node)))
                } else if node.is_element("dt") {
                    match node {
                        Node::Element { children, .. } => {
                            match find_named(children, "a", 0) {
                                Some(j) => Some(Item::Shortcut(Bookmark::from_node(&children[j]))),
                                None => None,
                            }
                        },
                        _ => {
                            proof {
                                assert(false);
                            }
                            None
                        },
                    }
                } else {
                    None
                }
            },
        }
    }
}

/// Builds the items that the nodes `s[i..]` denote, in document order.
pub fn build_items(s: &Vec<Node>, i: usize) -> (r: Vec<Item>)
    requires
        i <= s@.len(),
    ensures
        items_view(r@) == items_of(nodes_view(s@), i as int),
    decreases nodes_size(nodes_view(s@), i as int), 2int,
{
    if i < s.len() {
        proof {
            assert(nodes_size(nodes_view(s@), i as int) == node_size(nodes_view(s@)[i as int])
                + nodes_size(nodes_view(s@), i as int + 1));
            assert(node_size(nodes_view(s@)[i as int]) >= 1);
        }
        let item = Item::from_node(&s[i], s, i + 1);
        let mut rest = build_items(s, i + 1);
        match item {
            Some(it) => {
                rest.insert(0, it);
                proof {
                    assert(items_view(rest@) =~= items_of(nodes_view(s@), i as int));
                }
                rest
            },
            None => {
                proof {
                    assert(items_view(rest@) =~= items_of(nodes_view(s@), i as int));
                }
                rest
            },
        }
    } else {
        let r = Vec::new();
        proof {
            assert(items_view(r@) =~= items_of(nodes_view(s@), i as int));
        }
        r
    }
}

/// Equality of item values: like variants with equal payloads.
pub open spec fn item_sim(a: ItemView, b: ItemView) -> bool
    decreases a, 1int,
{
    match (a, b) {
        (ItemView::Subfolder(fa), ItemView::Subfolder(fb)) => folder_sim(fa, fb),
        (ItemView::Shortcut(ba), ItemView::Shortcut(bb)) => bookmark_sim(ba, bb),
        _ => false,
    }
}

/// Pairwise equality of item sequences from position `i` on.
pub open spec fn items_sim(a: Seq<ItemView>, b: Seq<ItemView>, i: int) -> bool
    decreases a, a.len() - i,
{
    a.len() == b.len() && if 0 <= i < a.len() {
        item_sim(a[i], b[i]) && items_sim(a, b, i + 1)
    } else {
        true
    }
}

pub(crate) fn item_eq(a: &Item, b: &Item) -> (r: bool)
    ensures
        r == item_sim(a@, b@),
    decreases a, 1int,
{
    match (a, b) {
        (Item::Subfolder(fa), Item::Subfolder(fb)) => folder_eq(fa, fb),
        (Item::Shortcut(ba), Item::Shortcut(bb)) => *ba == *bb,
        _ => false,
    }
}

pub(crate) fn items_eq(a: &Vec<Item>, b: &Vec<Item>, i: usize) -> (r: bool)
    requires
        i <= a@.len(),
    ensures
        r == items_sim(items_view(a@), items_view(b@), i as int),
    decreases a@, a@.len() - i,
{
    if a.len() != b.len() {
        false
    } else if i < a.len() {
        item_eq(&a[i], &b[i]) && items_eq(a, b, i + 1)
    } else {
        true
    }
}

impl PartialEq for Item {
    fn eq(&self, other: &Self) -> bool {
        item_eq(self, other)
    }
}

impl vstd::std_specs::cmp::PartialEqSpecImpl for Item {
    open spec fn obeys_eq_spec() -> bool {
        true
    }

    open spec fn eq_spec(&self, other: &Item) -> bool {
        item_sim(self@, other@)
    }
}

} // verus!
