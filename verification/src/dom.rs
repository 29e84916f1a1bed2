//! The library's model of a parsed markup tree, and the small trusted
//! boundary behind which an HTML parser produces such a tree from text.
//!
//! Bookmark files are tag soup: the format has no closing-tag discipline,
//! so the text is first handed to a lenient HTML parser and all further
//! work is done on the resulting tree of [`Node`] values.

use vstd::prelude::*;
use vstd::string::StrSliceExecFns;
use vstd::string::StringExecFns;
use kuchiki::traits::TendrilSink;

verus! {

/// One attribute of an element: a name and a value.
///
/// An attribute that is present without a value (a presence flag such as
/// `FOLDED`) is carried as an empty value; it is still distinct from an
/// absent attribute, which has no entry at all.
pub struct Attr {
    pub name: String,
    pub value: String,
}

/// A node of a parsed markup tree.
///
/// `Element` carries its tag, its attributes and its children in document
/// order; `Text` carries character data; `Other` stands for every node
/// kind the bookmark logic never reads (the document root, comments,
/// doctypes), keeping only its children so traversal can pass through it.
pub enum Node {
    Element { tag: String, attrs: Vec<Attr>, children: Vec<Node> },
    Text { text: String },
    Other { children: Vec<Node> },
}

/// The mathematical value of an [`Attr`].
pub struct AttrView {
    pub name: Seq<char>,
    pub value: Seq<char>,
}

/// The mathematical value of a [`Node`].
pub enum NodeView {
    Element { tag: Seq<char>, attrs: Seq<AttrView>, children: Seq<NodeView> },
    Text { text: Seq<char> },
    Other { children: Seq<NodeView> },
}

impl View for Attr {
    type V = AttrView;

    open spec fn view(&self) -> AttrView {
        AttrView { name: self.name@, value: self.value@ }
    }
}

impl DeepView for Attr {
    type V = AttrView;

    open spec fn deep_view(&self) -> AttrView {
        self.view()
    }
}

/// The values of a sequence of attributes.
pub open spec fn attrs_view(s: Seq<Attr>) -> Seq<AttrView> {
    Seq::new(s.len(), |i: int| s[i]@)
}

/// The values of a sequence of nodes.  The out-of-range arm is never
/// read; it only keeps the closure total, as termination checking asks.
pub open spec fn nodes_view(s: Seq<Node>) -> Seq<NodeView>
    decreases s,
{
    Seq::new(
        s.len(),
        |i: int|
            if 0 <= i < s.len() {
                s[i]@
            } else {
                NodeView::Other { children: Seq::empty() }
            },
    )
}

impl View for Node {
    type V = NodeView;

    open spec fn view(&self) -> NodeView
        decreases self,
    {
        match self {
            Node::Element { tag, attrs, children } => NodeView::Element {
                tag: tag@,
                attrs: attrs_view(attrs@),
                children: nodes_view(children@),
            },
            Node::Text { text } => NodeView::Text { text: text@ },
            Node::Other { children } => NodeView::Other { children: nodes_view(children@) },
        }
    }
}

impl DeepView for Node {
    type V = NodeView;

    open spec fn deep_view(&self) -> NodeView {
        self.view()
    }
}

/// The children of a node; a text node has none.
pub open spec fn node_children(n: NodeView) -> Seq<NodeView> {
    match n {
        NodeView::Element { children, .. } => children,
        NodeView::Text { .. } => Seq::empty(),
        NodeView::Other { children } => children,
    }
}

/// The size of a tree: every node counts one.  It is the termination
/// measure of the recursive builders, which walk from a node both down
/// into its children and sideways along its following siblings.
pub open spec fn node_size(n: NodeView) -> nat
    decreases n, 0int,
{
    match n {
        NodeView::Element { children, .. } => 1 + nodes_size(children, 0),
        NodeView::Text { .. } => 1,
        NodeView::Other { children } => 1 + nodes_size(children, 0),
    }
}

/// The summed size of the nodes of `s` from position `i` on.
pub open spec fn nodes_size(s: Seq<NodeView>, i: int) -> nat
    decreases s, s.len() - i,
{
    if 0 <= i < s.len() {
        node_size(s[i]) + nodes_size(s, i + 1)
    } else {
        0
    }
}

/// Dropping a prefix never makes the summed size larger.
pub proof fn lemma_nodes_size_mono(s: Seq<NodeView>, i: int, j: int)
    requires
        0 <= i <= j,
    ensures
        nodes_size(s, j) <= nodes_size(s, i),
    decreases j - i,
{
    if i < j && i < s.len() {
        lemma_nodes_size_mono(s, i + 1, j);
    }
}

/// The code point of `c` with an ASCII capital folded to its small letter.
pub open spec fn lower_code(c: char) -> int {
    if 65 <= c as int && c as int <= 90 {
        c as int + 32
    } else {
        c as int
    }
}

/// Character sequences equal up to ASCII case.  Tag and attribute names
/// of the bookmark format are matched this way.
pub open spec fn str_ieq(a: Seq<char>, b: Seq<char>) -> bool {
    a.len() == b.len() && (forall|i: int| 0 <= i < a.len() ==> lower_code(a[i]) == lower_code(b[i]))
}

fn chars_ieq(a: &str, b: &str, n: usize, i: usize) -> (r: bool)
    requires
        a@.len() == n,
        b@.len() == n,
        i <= n,
    ensures
        r == (forall|m: int| i <= m < n ==> lower_code(a@[m]) == lower_code(b@[m])),
    decreases n - i,
{
    if i < n {
        let ca = a.get_char(i);
        let cb = b.get_char(i);
        let la: u32 = if ca as u32 >= 65 && ca as u32 <= 90 { ca as u32 + 32 } else { ca as u32 };
        let lb: u32 = if cb as u32 >= 65 && cb as u32 <= 90 { cb as u32 + 32 } else { cb as u32 };
        if la == lb {
            chars_ieq(a, b, n, i + 1)
        } else {
            false
        }
    } else {
        true
    }
}

/// Compares two strings up to ASCII case.
pub fn str_ieq_exec(a: &str, b: &str) -> (r: bool)
    ensures
        r == str_ieq(a@, b@),
{
    let n = a.unicode_len();
    let m = b.unicode_len();
    if n != m {
        return false;
    }
    chars_ieq(a, b, n, 0)
}

/// Whether `n` is an element whose tag is `name`, up to ASCII case.
pub open spec fn is_element_named(n: NodeView, name: Seq<char>) -> bool {
    match n {
        NodeView::Element { tag, .. } => str_ieq(tag, name),
        _ => false,
    }
}

/// The value of the first attribute of `attrs`, from position `i` on,
/// whose name is `name` up to ASCII case.
pub open spec fn attr_lookup(attrs: Seq<AttrView>, name: Seq<char>, i: int) -> Option<Seq<char>>
    decreases attrs.len() - i,
{
    if 0 <= i < attrs.len() {
        if str_ieq(attrs[i].name, name) {
            Some(attrs[i].value)
        } else {
            attr_lookup(attrs, name, i + 1)
        }
    } else {
        None
    }
}

/// The value of the attribute `name` of `n`, if `n` is an element that
/// carries it; a presence-only attribute yields `Some` of the empty
/// sequence, an absent one yields `None`.
pub open spec fn node_attr(n: NodeView, name: Seq<char>) -> Option<Seq<char>> {
    match n {
        NodeView::Element { attrs, .. } => attr_lookup(attrs, name, 0),
        _ => None,
    }
}

/// The attribute value of `n` under `name`, or empty when absent.
pub open spec fn attr_or_empty(n: NodeView, name: Seq<char>) -> Seq<char> {
    match node_attr(n, name) {
        Some(v) => v,
        None => Seq::empty(),
    }
}

/// The concatenated character data of `n`'s subtree, in document order.
pub open spec fn text_of(n: NodeView) -> Seq<char>
    decreases n, 0int,
{
    match n {
        NodeView::Element { children, .. } => texts_of(children, 0),
        NodeView::Text { text } => text,
        NodeView::Other { children } => texts_of(children, 0),
    }
}

/// The concatenated character data of the subtrees of `s` from `i` on.
pub open spec fn texts_of(s: Seq<NodeView>, i: int) -> Seq<char>
    decreases s, s.len() - i,
{
    if 0 <= i < s.len() {
        text_of(s[i]) + texts_of(s, i + 1)
    } else {
        Seq::empty()
    }
}

/// The position of the first element of `s`, from `i` on, whose tag is
/// `name` up to ASCII case.
pub open spec fn first_named(s: Seq<NodeView>, name: Seq<char>, i: int) -> Option<int>
    decreases s.len() - i,
{
    if 0 <= i < s.len() {
        if is_element_named(s[i], name) {
            Some(i)
        } else {
            first_named(s, name, i + 1)
        }
    } else {
        None
    }
}

/// What `first_named` finds: an in-range element of that tag with no
/// earlier match, or the absence of any match.
pub proof fn lemma_first_named(s: Seq<NodeView>, name: Seq<char>, i: int)
    requires
        0 <= i,
    ensures
        match first_named(s, name, i) {
            Some(j) => i <= j < s.len() && is_element_named(s[j], name) && (forall|m: int|
                i <= m < j ==> !is_element_named(s[m], name)),
            None => forall|m: int| i <= m < s.len() ==> !is_element_named(s[m], name),
        },
    decreases s.len() - i,
{
    if 0 <= i < s.len() && !is_element_named(s[i], name) {
        lemma_first_named(s, name, i + 1);
    }
}

impl Node {
    /// Whether this node is an element of tag `name`, up to ASCII case.
    pub fn is_element(&self, name: &str) -> (r: bool)
        ensures
            r == is_element_named(self@, name@),
    {
        match self {
            Node::Element { tag, .. } => str_ieq_exec(tag.as_str(), name),
            _ => false,
        }
    }

    /// Looks the attribute `name` up on this node, up to ASCII case.
    pub fn attribute(&self, name: &str) -> (r: Option<String>)
        ensures
            r.deep_view() == node_attr(self@, name@),
    {
        match self {
            Node::Element { attrs, .. } => attr_find(attrs, name, 0),
            _ => None,
        }
    }

    /// The attribute value under `name`, or the empty string when absent.
    pub fn attribute_or_empty(&self, name: &str) -> (r: String)
        ensures
            r@ == attr_or_empty(self@, name@),
    {
        match self.attribute(name) {
            Some(v) => v,
            None => String::new(),
        }
    }

    /// The concatenated character data of this subtree, in document order.
    pub fn text_content(&self) -> (r: String)
        ensures
            r@ == text_of(self@),
    {
        let mut out = String::new();
        push_text(self, &mut out);
        proof {
            assert(out@ =~= text_of(self@));
        }
        out
    }
}

fn attr_find(attrs: &Vec<Attr>, name: &str, i: usize) -> (r: Option<String>)
    requires
        i <= attrs@.len(),
    ensures
        r.deep_view() == attr_lookup(attrs_view(attrs@), name@, i as int),
    decreases attrs@.len() - i,
{
    if i < attrs.len() {
        if str_ieq_exec(attrs[i].name.as_str(), name) {
            Some(attrs[i].value.clone())
        } else {
            attr_find(attrs, name, i + 1)
        }
    } else {
        None
    }
}

fn push_text(n: &Node, out: &mut String)
    ensures
        final(out)@ == old(out)@ + text_of(n@),
    decreases n, 0int,
{
    match n {
        Node::Element { children, .. } => push_texts(children, 0, out),
        Node::Text { text } => out.append(text.as_str()),
        Node::Other { children } => push_texts(children, 0, out),
    }
}

fn push_texts(s: &Vec<Node>, i: usize, out: &mut String)
    requires
        i <= s@.len(),
    ensures
        final(out)@ == old(out)@ + texts_of(nodes_view(s@), i as int),
    decreases s@, s@.len() - i,
{
    if i < s.len() {
        push_text(&s[i], out);
        push_texts(s, i + 1, out);
        proof {
            assert(out@ =~= old(out)@ + texts_of(nodes_view(s@), i as int));
        }
    } else {
        proof {
            assert(out@ =~= old(out)@ + texts_of(nodes_view(s@), i as int));
        }
    }
}

/// Finds the first element of tag `name` in `s`, from `i` on, up to
/// ASCII case.
pub fn find_named(s: &Vec<Node>, name: &str, i: usize) -> (r: Option<usize>)
    requires
        i <= s@.len(),
    ensures
        match r {
            Some(j) => i <= j < s@.len() && first_named(nodes_view(s@), name@, i as int) == Some(
                j as int,
            ),
            None => first_named(nodes_view(s@), name@, i as int) is None,
        },
    decreases s@.len() - i,
{
    if i < s.len() {
        if s[i].is_element(name) {
            Some(i)
        } else {
            find_named(s, name, i + 1)
        }
    } else {
        None
    }
}

/// What the HTML parser makes of a text.  Bookmark markup is parsed by a
/// full, error-tolerant HTML parser whose output no short statement can
/// pin down; it is deterministic, a function of the text alone, so the
/// library only names it.
pub uninterp spec fn dom_of(text: Seq<char>) -> NodeView;

#[verifier::external_type_specification]
#[verifier::external_body]
pub struct ExNodeRef(kuchiki::NodeRef);

/// Relies on kuchiki::Node::data and kuchiki::NodeRef::children: converts
/// one parsed node and its descendants into the library's tree, one match
/// arm per node kind, moving the tag, the attributes and the children.
/// The parser hands element and attribute names over lowercased.
#[verifier::external_body]
fn tree_of(n: &kuchiki::NodeRef) -> Node {
    match n.data() {
        kuchiki::NodeData::Element(e) => Node::Element {
            tag: e.name.local.to_string(),
            attrs: e.attributes.borrow().map.iter().map(
                |(k, a)| Attr { name: k.local.to_string(), value: a.value.clone() },
            ).collect(),
            children: n.children().map(|c| tree_of(&c)).collect(),
        },
        kuchiki::NodeData::Text(t) => Node::Text { text: t.borrow().clone() },
        _ => Node::Other { children: n.children().map(|c| tree_of(&c)).collect() },
    }
}

/// Relies on kuchiki::parse_html (html5ever underneath): parsing never
/// fails, malformed input degrades to a smaller tree, and the result is a
/// function of the text alone.
#[verifier::external_body]
pub(crate) fn parse_markup(raw: &str) -> (r: Node)
    ensures
        r@ == dom_of(raw@),
{
    tree_of(&kuchiki::parse_html().one(raw))
}

} // verus!
