//! The document level of a bookmark file: its title, its heading and its
//! top-level items, with the entry point that parses markup text.

use vstd::prelude::*;
use crate::dom::{
    dom_of, is_element_named, node_children, parse_markup, text_of, Node, NodeView,
};
use crate::item::{build_items, items_eq, items_of, items_sim, items_view, Item, ItemView};

verus! {

/// One parsed bookmark document.
///
/// `title` and `h1` are the texts of the document's title and primary
/// heading, each empty when absent; `children` holds the items of the
/// top-level list container in document order.
#[derive(Debug)]
pub struct Netscape {
    pub title: String,
    pub h1: String,
    pub children: Vec<Item>,
}

/// The mathematical value of a [`Netscape`] document.
pub struct NetscapeView {
    pub title: Seq<char>,
    pub h1: Seq<char>,
    pub children: Seq<ItemView>,
}

impl View for Netscape {
    type V = NetscapeView;

    open spec fn view(&self) -> NetscapeView {
        NetscapeView { title: self.title@, h1: self.h1@, children: items_view(self.children@) }
    }
}

impl DeepView for Netscape {
    type V = NetscapeView;

    open spec fn deep_view(&self) -> NetscapeView {
        self.view()
    }
}

/// The error surface of the library: reading input failed.  Building a
/// document from a tree never fails — malformed markup only shrinks the
/// result — so this arises solely around the file-reading entry point.
#[derive(Debug)]
pub enum NetscapeError {
    Io,
}

/// The first element of tag `name` (up to ASCII case) in the subtree of
/// `n`, depth-first in document order.
pub open spec fn find_elem(n: NodeView, name: Seq<char>) -> Option<NodeView>
    decreases n, 0int,
{
    if is_element_named(n, name) {
        Some(n)
    } else {
        match n {
            NodeView::Element { children, .. } => find_elem_in(children, name, 0),
            NodeView::Text { .. } => None,
            NodeView::Other { children } => find_elem_in(children, name, 0),
        }
    }
}

/// The first element of tag `name` in the subtrees of `s[i..]`.
pub open spec fn find_elem_in(s: Seq<NodeView>, name: Seq<char>, i: int) -> Option<NodeView>
    decreases s, s.len() - i,
{
    if 0 <= i < s.len() {
        match find_elem(s[i], name) {
            Some(m) => Some(m),
            None => find_elem_in(s, name, i + 1),
        }
    } else {
        None
    }
}

/// What `find_elem` returns is an element of the requested tag.
pub proof fn lemma_find_elem_named(n: NodeView, name: Seq<char>)
    ensures
        find_elem(n, name) matches Some(m) ==> is_element_named(m, name),
    decreases n, 0int,
{
    if !is_element_named(n, name) {
        match n {
            NodeView::Element { children, .. } => lemma_find_elem_in_named(children, name, 0),
            NodeView::Text { .. } => {},
            NodeView::Other { children } => lemma_find_elem_in_named(children, name, 0),
        }
    }
}

/// What `find_elem_in` returns is an element of the requested tag.
pub proof fn lemma_find_elem_in_named(s: Seq<NodeView>, name: Seq<char>, i: int)
    ensures
        find_elem_in(s, name, i) matches Some(m) ==> is_element_named(m, name),
    decreases s, s.len() - i,
{
    if 0 <= i < s.len() {
        lemma_find_elem_named(s[i], name);
        lemma_find_elem_in_named(s, name, i + 1);
    }
}

/// The document that the tree rooted at `root` denotes: the text of the
/// first title element, the text of the first primary heading, and the
/// items of the first list container, each part empty when the element
/// is absent.
pub open spec fn netscape_of(root: NodeView) -> NetscapeView {
    NetscapeView {
        title: match find_elem(root, "title"@) {
            Some(t) => text_of(t),
            None => Seq::empty(),
        },
        h1: match find_elem(root, "h1"@) {
            Some(h) => text_of(h),
            None => Seq::empty(),
        },
        children: match find_elem(root, "dl"@) {
            Some(dl) => items_of(node_children(dl), 0),
            None => Seq::empty(),
        },
    }
}

fn find_elem_exec<'a>(n: &'a Node, name: &str) -> (r: Option<&'a Node>)
    ensures
        match r {
            Some(m) => find_elem(n@, name@) == Some(m@),
            None => find_elem(n@, name@) is None,
        },
    decreases n, 0int,
{
    if n.is_element(name) {
        Some(n)
    } else {
        match n {
            Node::Element { children, .. } => find_elem_in_exec(children, name, 0),
            Node::Text { .. } => None,
            Node::Other { children } => find_elem_in_exec(children, name, 0),
        }
    }
}

fn find_elem_in_exec<'a>(s: &'a Vec<Node>, name: &str, i: usize) -> (r: Option<&'a Node>)
    requires
        i <= s@.len(),
    ensures
        match r {
            Some(m) => find_elem_in(crate::dom::nodes_view(s@), name@, i as int) == Some(m@),
            None => find_elem_in(crate::dom::nodes_view(s@), name@, i as int) is None,
        },
    decreases s@, s@.len() - i,
{
    if i < s.len() {
        match find_elem_exec(&s[i], name) {
            Some(m) => Some(m),
            None => find_elem_in_exec(s, name, i + 1),
        }
    } else {
        None
    }
}

impl Netscape {
    /// Builds the document that the tree rooted at `node` denotes.
    /// Building never fails; the `Result` carries the library's error
    /// surface for the reading entry points around it.
    pub fn from_node(node: &Node) -> (r: Result<Netscape, NetscapeError>)
        ensures
            r matches Ok(n) && n@ == netscape_of(node@),
    {
        let title = match find_elem_exec(node, "title") {
            Some(t) => t.text_content(),
            None => String::new(),
        };
        let h1 = match find_elem_exec(node, "h1") {
            Some(h) => h.text_content(),
            None => String::new(),
        };
        let children = match find_elem_exec(node, "dl") {
            Some(dl) => {
                proof {
                    lemma_find_elem_named(node@, "dl"@);
                }
                match dl {
                    Node::Element { children, .. } => build_items(children, 0),
                    _ => {
                        proof {
                            assert(false);
                        }
                        Vec::new()
                    },
                }
            },
            None => Vec::new(),
        };
        proof {
            assert(items_view(Seq::<Item>::empty()) =~= Seq::<ItemView>::empty());
        }
        Ok(Netscape { title, h1, children })
    }

    /// Parses bookmark markup text into a document.  Parsing never
    /// fails: malformed input degrades to an emptier tree, never to an
    /// error.
    pub fn from_string(raw: &str) -> (r: Result<Netscape, NetscapeError>)
        ensures
            r matches Ok(n) && n@ == netscape_of(dom_of(raw@)),
    {
        let node = parse_markup(raw);
        Netscape::from_node(&node)
    }
}

/// Equality of document values: title, heading and members agree.
pub open spec fn netscape_sim(a: NetscapeView, b: NetscapeView) -> bool {
    a.title == b.title && a.h1 == b.h1 && items_sim(a.children, b.children, 0)
}

impl PartialEq for Netscape {
    fn eq(&self, other: &Self) -> bool {
        self.title == other.title && self.h1 == other.h1 && items_eq(
            &self.children,
            &other.children,
            0,
        )
    }
}

impl vstd::std_specs::cmp::PartialEqSpecImpl for Netscape {
    open spec fn obeys_eq_spec() -> bool {
        true
    }

    open spec fn eq_spec(&self, other: &Netscape) -> bool {
        netscape_sim(self@, other@)
    }
}

} // verus!
