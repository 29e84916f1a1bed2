//! The folder of a bookmark tree and its recursive builder.
//!
//! A folder stands in the markup as a header element whose *following
//! sibling*, not child, is the list container holding its members; the
//! header is itself usually wrapped in a generic item element.  The
//! builder accepts both shapes and recurses through the variant resolver
//! for the members.

use vstd::prelude::*;
use crate::dom::{
    attr_or_empty, find_named, first_named, is_element_named, lemma_first_named,
    lemma_nodes_size_mono, node_attr, node_children, node_size, nodes_size, nodes_view, text_of,
    Node, NodeView,
};
use crate::item::{build_items, items_eq, items_of, items_sim, items_view, Item, ItemView};

verus! {

/// One folder: its label, its hint attributes and its members in
/// document order.
///
/// `folded` and the two placement hints are presence flags of the source
/// markup; the timestamps are carried verbatim and may be empty.  A
/// folder with no recognized members has an empty `children` sequence,
/// which is valid, not an error.
#[derive(Debug)]
pub struct Folder {
    pub title: String,
    pub folded: bool,
    pub add_date: String,
    pub last_modified: String,
    pub personal_toolbar_folder: bool,
    pub unfiled_bookmarks_folder: bool,
    pub children: Vec<Item>,
}

/// The mathematical value of a [`Folder`].
pub struct FolderView {
    pub title: Seq<char>,
    pub folded: bool,
    pub add_date: Seq<char>,
    pub last_modified: Seq<char>,
    pub personal_toolbar_folder: bool,
    pub unfiled_bookmarks_folder: bool,
    pub children: Seq<ItemView>,
}

impl View for Folder {
    type V = FolderView;

    open spec fn view(&self) -> FolderView
        decreases self,
    {
        FolderView {
            title: self.title@,
            folded: self.folded,
            add_date: self.add_date@,
            last_modified: self.last_modified@,
            personal_toolbar_folder: self.personal_toolbar_folder,
            unfiled_bookmarks_folder: self.unfiled_bookmarks_folder,
            children: items_view(self.children@),
        }
    }
}

impl DeepView for Folder {
    type V = FolderView;

    open spec fn deep_view(&self) -> FolderView {
        self.view()
    }
}

/// The folder that the node `n` denotes, with `sib[k..]` its following
/// siblings.
///
/// An item-wrapper element is resolved through its first header child;
/// a header element yields a folder whose hint attributes are read by
/// presence, whose timestamps are read verbatim, and whose members come
/// from the first list container among the following siblings — with no
/// such container the folder is empty.  Any other node denotes no folder.
pub open spec fn folder_of(n: NodeView, sib: Seq<NodeView>, k: int) -> Option<FolderView>
    decreases node_size(n) + nodes_size(sib, k), 0int,
    via folder_of_dec
{
    if is_element_named(n, "dt"@) {
        match first_named(node_children(n), "h3"@, 0) {
            Some(j) => folder_of(node_children(n)[j], node_children(n), j + 1),
            None => None,
        }
    } else if is_element_named(n, "h3"@) {
        Some(
            FolderView {
                title: text_of(n),
                folded: node_attr(n, "folded"@) is Some,
                add_date: attr_or_empty(n, "add_date"@),
                last_modified: attr_or_empty(n, "last_modified"@),
                personal_toolbar_folder: node_attr(n, "personal_toolbar_folder"@) is Some,
                unfiled_bookmarks_folder: node_attr(n, "unfiled_bookmarks_folder"@) is Some,
                children: match first_named(sib, "dl"@, k) {
                    Some(j) => items_of(node_children(sib[j]), 0),
                    None => Seq::empty(),
                },
            },
        )
    } else {
        None
    }
}

#[via_fn]
proof fn folder_of_dec(n: NodeView, sib: Seq<NodeView>, k: int) {
    if is_element_named(n, "dt"@) {
        let c = node_children(n);
        match first_named(c, "h3"@, 0) {
            Some(j) => {
                lemma_first_named(c, "h3"@, 0);
                lemma_nodes_size_mono(c, 0, j);
                assert(nodes_size(c, j) == node_size(c[j]) + nodes_size(c, j + 1));
                assert(node_size(n) == 1 + nodes_size(c, 0));
            },
            None => {},
        }
    } else if is_element_named(n, "h3"@) {
        match first_named(sib, "dl"@, k) {
            Some(j) => {
                if 0 <= k {
                    lemma_first_named(sib, "dl"@, k);
                    lemma_nodes_size_mono(sib, k, j);
                    assert(nodes_size(sib, j) == node_size(sib[j]) + nodes_size(sib, j + 1));
                    assert(node_size(sib[j]) == 1 + nodes_size(node_children(sib[j]), 0));
                } else {
                    assert(first_named(sib, "dl"@, k) is None);
                }
            },
            None => {},
        }
    }
}

impl Folder {
    /// Builds the folder that `node` denotes — whose following siblings
    /// are `siblings[start..]` — or returns `None` where `node` is
    /// neither a folder header nor an item wrapper holding one.  That
    /// outcome is distinct from an empty folder, which is `Some` with no
    /// children.
    pub fn from_node(node: &Node, siblings: &Vec<Node>, start: usize) -> (r: Option<Folder>)
        requires
            start <= siblings@.len(),
        ensures
            match r {
                Some(f) => folder_of(node@, nodes_view(siblings@), start as int) == Some(f@),
                None => folder_of(node@, nodes_view(siblings@), start as int) is None,
            },
        decreases node_size(node@) + nodes_size(nodes_view(siblings@), start as int), 0int,
    {
        if node.is_element("dt") {
            match node {
                Node::Element { children, .. } => {
                    match find_named(children, "h3", 0) {
                        Some(j) => {
                            proof {
                                assert(children.len() == children@.len());
                                let c = nodes_view(children@);
                                lemma_first_named(c, "h3"@, 0);
                                lemma_nodes_size_mono(c, 0, j as int);
                                assert(nodes_size(c, j as int) == node_size(c[j as int])
                                    + nodes_size(c, j as int + 1));
                                assert(node_size(node@) == 1 + nodes_size(c, 0));
                            }
                            Folder::from_node(&children[j], children, j + 1)
                        },
                        None => None,
                    }
                },
                _ => {
                    proof {
                        assert(false);
                    }
                    None
                },
            }
        } else if node.is_element("h3") {
            let members: Vec<Item> = match find_named(siblings, "dl", start) {
                Some(j) => {
                    proof {
                        let sv = nodes_view(siblings@);
                        lemma_first_named(sv, "dl"@, start as int);
                        lemma_nodes_size_mono(sv, start as int, j as int);
                        assert(nodes_size(sv, j as int) == node_size(sv[j as int]) + nodes_size(
                            sv,
                            j as int + 1,
                        ));
                    }
                    match &siblings[j] {
                        Node::Element { children: dlc, .. } => {
                            proof {
                                assert(node_size(nodes_view(siblings@)[j as int]) == 1
                                    + nodes_size(nodes_view(dlc@), 0));
                            }
                            build_items(dlc, 0)
                        },
                        _ => {
                            proof {
                                assert(false);
                            }
                            Vec::new()
                        },
                    }
                },
                None => Vec::new(),
            };
            let built = Folder {
                title: node.text_content(),
                folded: node.attribute("folded").is_some(),
                add_date: node.attribute_or_empty("add_date"),
                last_modified: node.attribute_or_empty("last_modified"),
                personal_toolbar_folder: node.attribute("personal_toolbar_folder").is_some(),
                unfiled_bookmarks_folder: node.attribute("unfiled_bookmarks_folder").is_some(),
                children: members,
            };
            proof {
                let spec_f = folder_of(node@, nodes_view(siblings@), start as int);
                assert(spec_f matches Some(f) && f == built@) by {
                    assert(items_view(Seq::<Item>::empty()) =~= Seq::<ItemView>::empty());
                }
            }
            Some(built)
        } else {
            None
        }
    }
}

/// Equality of folder values: the identifying fields — label, creation
/// timestamp — and the members agree; the cosmetic hint flags and the
/// modification timestamp are deliberately left out, so that markup that
/// omits or varies those hints still compares equal.
pub open spec fn folder_sim(a: FolderView, b: FolderView) -> bool
    decreases a, 0int,
{
    a.add_date == b.add_date && a.title == b.title && items_sim(a.children, b.children, 0)
}

pub(crate) fn folder_eq(a: &Folder, b: &Folder) -> (r: bool)
    ensures
        r == folder_sim(a@, b@),
    decreases a, 0int,
{
    a.add_date == b.add_date && a.title == b.title && items_eq(&a.children, &b.children, 0)
}

impl PartialEq for Folder {
    fn eq(&self, other: &Self) -> bool {
        folder_eq(self, other)
    }
}

impl vstd::std_specs::cmp::PartialEqSpecImpl for Folder {
    open spec fn obeys_eq_spec() -> bool {
        true
    }

    open spec fn eq_spec(&self, other: &Folder) -> bool {
        folder_sim(self@, other@)
    }
}

} // verus!
