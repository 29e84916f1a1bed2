//! The library's laws: what rendering and building guarantee together.
//!
//! Rendering a typed tree produces markup whose element structure is
//! written out here as a tree of [`NodeView`] values (`folder_node`,
//! `item_nodes`, `netscape_node`): the same element shapes, attributes
//! and text that the renderer's textual templates emit, without the
//! whitespace between elements, which the builders skip anyway.  The
//! round-trip laws state that building from that tree yields the
//! original value back, for every value; the step from rendered text to
//! tree is the HTML parser's and stays outside these statements.
//! Beside them stand the laws of document order, of presence-flag
//! attributes, of unrecognized elements and of the empty folder.

use vstd::prelude::*;
use crate::bookmark::BookmarkView;
use crate::dom::{
    attr_lookup, first_named, is_element_named, lower_code, node_attr, node_children, str_ieq,
    text_of, AttrView, NodeView,
};
use crate::folder::{folder_of, FolderView};
use crate::item::{item_of, items_of, ItemView};
use crate::netscape::{netscape_of, NetscapeView};

verus! {

/// The attributes of the header element that renders `f`: the presence
/// flags stand only when set, the timestamps always, values verbatim.
pub open spec fn folder_attrs(f: FolderView) -> Seq<AttrView> {
    (if f.folded {
        seq![AttrView { name: "FOLDED"@, value: Seq::empty() }]
    } else {
        Seq::<AttrView>::empty()
    }) + seq![AttrView { name: "ADD_DATE"@, value: f.add_date }]
        + seq![AttrView { name: "LAST_MODIFIED"@, value: f.last_modified }] + (
    if f.personal_toolbar_folder {
        seq![AttrView { name: "PERSONAL_TOOLBAR_FOLDER"@, value: Seq::empty() }]
    } else {
        Seq::<AttrView>::empty()
    }) + (if f.unfiled_bookmarks_folder {
        seq![AttrView { name: "UNFILED_BOOKMARKS_FOLDER"@, value: Seq::empty() }]
    } else {
        Seq::<AttrView>::empty()
    })
}

/// The element structure that rendering `f` emits: an item wrapper
/// holding the header element and the list container of the members.
pub open spec fn folder_node(f: FolderView) -> NodeView
    decreases f, 0int,
{
    NodeView::Element {
        tag: "DT"@,
        attrs: Seq::empty(),
        children: seq![
            NodeView::Element {
                tag: "H3"@,
                attrs: folder_attrs(f),
                children: seq![NodeView::Text { text: f.title }],
            },
            NodeView::Element { tag: "DL"@, attrs: Seq::empty(), children: item_nodes(f.children, 0) },
        ],
    }
}

/// The element structure that rendering `b` emits: an item wrapper
/// holding the anchor with its attributes and its title text.
pub open spec fn bookmark_node(b: BookmarkView) -> NodeView {
    NodeView::Element {
        tag: "DT"@,
        attrs: Seq::empty(),
        children: seq![
            NodeView::Element {
                tag: "A"@,
                attrs: seq![
                    AttrView { name: "HREF"@, value: b.href },
                    AttrView { name: "ADD_DATE"@, value: b.add_date },
                    AttrView { name: "LAST_VISIT"@, value: b.last_visit },
                    AttrView { name: "LAST_MODIFIED"@, value: b.last_modified },
                ],
                children: seq![NodeView::Text { text: b.title }],
            },
        ],
    }
}

/// The element structure that rendering one item emits.
pub open spec fn item_node(it: ItemView) -> NodeView
    decreases it, 0int,
{
    match it {
        ItemView::Subfolder(f) => folder_node(f),
        ItemView::Shortcut(b) => bookmark_node(b),
    }
}

/// The element structures that rendering the items `s[i..]` emits.
pub open spec fn item_nodes(s: Seq<ItemView>, i: int) -> Seq<NodeView>
    decreases s, s.len() - i,
{
    if 0 <= i < s.len() {
        seq![item_node(s[i])] + item_nodes(s, i + 1)
    } else {
        Seq::empty()
    }
}

/// The element structure that rendering a document emits: its title
/// element, its heading element and its top-level list container, under
/// a root that is no element itself.
pub open spec fn netscape_node(d: NetscapeView) -> NodeView {
    NodeView::Other {
        children: seq![
            NodeView::Element {
                tag: "TITLE"@,
                attrs: Seq::empty(),
                children: seq![NodeView::Text { text: d.title }],
            },
            NodeView::Element {
                tag: "H1"@,
                attrs: Seq::empty(),
                children: seq![NodeView::Text { text: d.h1 }],
            },
            NodeView::Element { tag: "DL"@, attrs: Seq::empty(), children: item_nodes(d.children, 0) },
        ],
    }
}

/// How the names of the bookmark format compare up to ASCII case: each
/// rendered name matches the name the builders look up, and the names
/// that a lookup must walk past match nothing they are compared with.
#[verifier::rlimit(60)]
proof fn lemma_format_names()
    ensures
        str_ieq("DT"@, "dt"@),
        str_ieq("H3"@, "h3"@),
        str_ieq("DL"@, "dl"@),
        str_ieq("A"@, "a"@),
        str_ieq("TITLE"@, "title"@),
        str_ieq("H1"@, "h1"@),
        str_ieq("FOLDED"@, "folded"@),
        str_ieq("ADD_DATE"@, "add_date"@),
        str_ieq("LAST_MODIFIED"@, "last_modified"@),
        str_ieq("PERSONAL_TOOLBAR_FOLDER"@, "personal_toolbar_folder"@),
        str_ieq("UNFILED_BOOKMARKS_FOLDER"@, "unfiled_bookmarks_folder"@),
        str_ieq("HREF"@, "href"@),
        str_ieq("LAST_VISIT"@, "last_visit"@),
        !str_ieq("H3"@, "dt"@),
        !str_ieq("A"@, "h3"@),
        !str_ieq("DT"@, "a"@),
        !str_ieq("TITLE"@, "h1"@),
        !str_ieq("TITLE"@, "dl"@),
        !str_ieq("H1"@, "dl"@),
        !str_ieq("ADD_DATE"@, "folded"@),
        !str_ieq("LAST_MODIFIED"@, "folded"@),
        !str_ieq("PERSONAL_TOOLBAR_FOLDER"@, "folded"@),
        !str_ieq("UNFILED_BOOKMARKS_FOLDER"@, "folded"@),
        !str_ieq("FOLDED"@, "add_date"@),
        !str_ieq("FOLDED"@, "last_modified"@),
        !str_ieq("ADD_DATE"@, "last_modified"@),
        !str_ieq("FOLDED"@, "personal_toolbar_folder"@),
        !str_ieq("ADD_DATE"@, "personal_toolbar_folder"@),
        !str_ieq("LAST_MODIFIED"@, "personal_toolbar_folder"@),
        !str_ieq("FOLDED"@, "unfiled_bookmarks_folder"@),
        !str_ieq("ADD_DATE"@, "unfiled_bookmarks_folder"@),
        !str_ieq("LAST_MODIFIED"@, "unfiled_bookmarks_folder"@),
        !str_ieq("PERSONAL_TOOLBAR_FOLDER"@, "unfiled_bookmarks_folder"@),
        !str_ieq("HREF"@, "add_date"@),
        !str_ieq("HREF"@, "last_visit"@),
        !str_ieq("ADD_DATE"@, "last_visit"@),
        !str_ieq("HREF"@, "last_modified"@),
        !str_ieq("LAST_VISIT"@, "last_modified"@),
{
    reveal_strlit("DT");
    reveal_strlit("dt");
    reveal_strlit("H3");
    reveal_strlit("h3");
    reveal_strlit("DL");
    reveal_strlit("dl");
    reveal_strlit("A");
    reveal_strlit("a");
    reveal_strlit("TITLE");
    reveal_strlit("title");
    reveal_strlit("H1");
    reveal_strlit("h1");
    reveal_strlit("FOLDED");
    reveal_strlit("folded");
    reveal_strlit("ADD_DATE");
    reveal_strlit("add_date");
    reveal_strlit("LAST_MODIFIED");
    reveal_strlit("last_modified");
    reveal_strlit("PERSONAL_TOOLBAR_FOLDER");
    reveal_strlit("personal_toolbar_folder");
    reveal_strlit("UNFILED_BOOKMARKS_FOLDER");
    reveal_strlit("unfiled_bookmarks_folder");
    reveal_strlit("HREF");
    reveal_strlit("href");
    reveal_strlit("LAST_VISIT");
    reveal_strlit("last_visit");
    assert(lower_code("H3"@[0]) != lower_code("dt"@[0]));
    assert(lower_code("H1"@[0]) != lower_code("dl"@[0]));
}

/// Looking the builder's attribute names up among the rendered
/// attributes finds exactly the rendered fields.
proof fn lemma_folder_attr_lookup(f: FolderView)
    ensures
        attr_lookup(folder_attrs(f), "folded"@, 0) is Some <==> f.folded,
        attr_lookup(folder_attrs(f), "add_date"@, 0) == Some(f.add_date),
        attr_lookup(folder_attrs(f), "last_modified"@, 0) == Some(f.last_modified),
        attr_lookup(folder_attrs(f), "personal_toolbar_folder"@, 0) is Some
            <==> f.personal_toolbar_folder,
        attr_lookup(folder_attrs(f), "unfiled_bookmarks_folder"@, 0) is Some
            <==> f.unfiled_bookmarks_folder,
{
    lemma_format_names();
    reveal_with_fuel(crate::dom::attr_lookup, 7);
}

/// The text of the rendered header or anchor is exactly the stored title.
proof fn lemma_text_roundtrip(t: Seq<char>, attrs: Seq<AttrView>, tag: Seq<char>)
    ensures
        text_of(
            NodeView::Element { tag: tag, attrs: attrs, children: seq![NodeView::Text { text: t }] },
        ) == t,
{
    reveal_with_fuel(crate::dom::texts_of, 3);
    let c = seq![NodeView::Text { text: t }];
    assert(crate::dom::texts_of(c, 1) =~= Seq::<char>::empty());
    assert(crate::dom::texts_of(c, 0) =~= t);
}

/// Every rendered item sequence has one node per item.
proof fn lemma_item_nodes_len(s: Seq<ItemView>, i: int)
    requires
        0 <= i <= s.len(),
    ensures
        item_nodes(s, i).len() == s.len() - i,
    decreases s.len() - i,
{
    if i < s.len() {
        lemma_item_nodes_len(s, i + 1);
    }
}

/// Round trip of one folder: building from the element structure that
/// rendering emits yields the folder back, whatever follows it.
pub proof fn lemma_folder_roundtrip(f: FolderView, sib: Seq<NodeView>, k: int)
    ensures
        folder_of(folder_node(f), sib, k) == Some(f),
    decreases f, 1int,
{
    lemma_format_names();
    lemma_folder_attr_lookup(f);
    let dt = folder_node(f);
    let c = node_children(dt);
    let h3 = c[0];
    let dl = c[1];
    assert(is_element_named(dt, "dt"@));
    assert(first_named(c, "h3"@, 0) == Some(0int));
    assert(!is_element_named(h3, "dt"@));
    assert(is_element_named(h3, "h3"@));
    assert(first_named(c, "dl"@, 1) == Some(1int));
    lemma_text_roundtrip(f.title, folder_attrs(f), "H3"@);
    let u = item_nodes(f.children, 0);
    assert(u.subrange(0, u.len() as int) =~= u);
    lemma_items_roundtrip(f.children, 0, u, 0);
    assert(f.children.subrange(0, f.children.len() as int) =~= f.children);
    assert(folder_of(h3, c, 1) == Some(f));
}

/// Round trip of one item: resolving the element structure that
/// rendering emits yields the item back, whatever follows it.
pub proof fn lemma_item_roundtrip(it: ItemView, sib: Seq<NodeView>, k: int)
    ensures
        item_of(item_node(it), sib, k) == Some(it),
    decreases it, 1int,
{
    match it {
        ItemView::Subfolder(f) => {
            lemma_folder_roundtrip(f, sib, k);
        },
        ItemView::Shortcut(b) => {
            lemma_format_names();
            let dt = bookmark_node(b);
            let c = node_children(dt);
            let a = c[0];
            reveal_with_fuel(crate::dom::first_named, 3);
            assert(first_named(c, "h3"@, 0) is None);
            assert(folder_of(dt, sib, k) is None);
            assert(first_named(c, "a"@, 0) == Some(0int));
            lemma_text_roundtrip(
                b.title,
                seq![
                    AttrView { name: "HREF"@, value: b.href },
                    AttrView { name: "ADD_DATE"@, value: b.add_date },
                    AttrView { name: "LAST_VISIT"@, value: b.last_visit },
                    AttrView { name: "LAST_MODIFIED"@, value: b.last_modified },
                ],
                "A"@,
            );
            reveal_with_fuel(crate::dom::attr_lookup, 6);
            assert(crate::bookmark::bookmark_of(a) == b);
        },
    }
}

/// Round trip of an item sequence: building items from a node sequence
/// whose tail `u[j..]` is the rendered form of `s[i..]` yields exactly
/// `s[i..]`, in order.
pub proof fn lemma_items_roundtrip(s: Seq<ItemView>, i: int, u: Seq<NodeView>, j: int)
    requires
        0 <= i <= s.len(),
        0 <= j <= u.len(),
        u.subrange(j, u.len() as int) == item_nodes(s, i),
    ensures
        items_of(u, j) == s.subrange(i, s.len() as int),
    decreases s, s.len() - i,
{
    lemma_item_nodes_len(s, i);
    if i < s.len() {
        assert(u.subrange(j, u.len() as int)[0] == u[j]);
        assert(item_nodes(s, i)[0] == item_node(s[i]));
        lemma_item_roundtrip(s[i], u, j + 1);
        assert(u.subrange(j + 1, u.len() as int) =~= item_nodes(s, i + 1)) by {
            assert forall|m: int| 0 <= m < u.len() - j - 1 implies #[trigger] u.subrange(
                j + 1,
                u.len() as int,
            )[m] == item_nodes(s, i + 1)[m] by {
                assert(u.subrange(j, u.len() as int)[m + 1] == u[j + 1 + m]);
                assert(item_nodes(s, i)[m + 1] == item_nodes(s, i + 1)[m]);
            }
            lemma_item_nodes_len(s, i + 1);
        }
        lemma_items_roundtrip(s, i + 1, u, j + 1);
        assert(items_of(u, j) == seq![s[i]] + items_of(u, j + 1));
        assert(seq![s[i]] + s.subrange(i + 1, s.len() as int) =~= s.subrange(i, s.len() as int));
    } else {
        assert(u.subrange(j, u.len() as int).len() == 0);
        assert(items_of(u, j) =~= Seq::<ItemView>::empty());
        assert(s.subrange(i, s.len() as int) =~= Seq::<ItemView>::empty());
    }
}

/// Round trip of a whole document: building from the element structure
/// that rendering emits yields the document back.
pub proof fn lemma_netscape_roundtrip(d: NetscapeView)
    ensures
        netscape_of(netscape_node(d)) == d,
{
    lemma_format_names();
    reveal_with_fuel(crate::netscape::find_elem, 8);
    reveal_with_fuel(crate::netscape::find_elem_in, 8);
    let root = netscape_node(d);
    let c = node_children(root);
    lemma_text_roundtrip(d.title, Seq::empty(), "TITLE"@);
    lemma_text_roundtrip(d.h1, Seq::empty(), "H1"@);
    assert(crate::netscape::find_elem(root, "title"@) == Some(c[0]));
    assert(crate::netscape::find_elem(root, "h1"@) == Some(c[1]));
    assert(crate::netscape::find_elem(root, "dl"@) == Some(c[2]));
    lemma_item_nodes_len(d.children, 0);
    let u = item_nodes(d.children, 0);
    assert(u.subrange(0, u.len() as int) =~= u);
    lemma_items_roundtrip(d.children, 0, u, 0);
    assert(d.children.subrange(0, d.children.len() as int) =~= d.children);
}

/// Whether `idx` lists, in strictly increasing document order, the
/// positions of the nodes of `s[i..]` that the items built from them
/// come from, one position per item.
pub open spec fn items_order_witness(idx: Seq<int>, s: Seq<NodeView>, i: int) -> bool {
    &&& idx.len() == items_of(s, i).len()
    &&& (forall|a: int, b: int| 0 <= a < b < idx.len() ==> idx[a] < idx[b])
    &&& (forall|a: int|
        0 <= a < idx.len() ==> i <= idx[a] < s.len() && item_of(s[idx[a]], s, idx[a] + 1) == Some(
            items_of(s, i)[a],
        ))
}

/// Document order is preserved: the items built from `s[i..]` come from
/// a strictly increasing sequence of source positions — the children of
/// every folder and document stand in the order of their source nodes.
pub proof fn lemma_items_document_order(s: Seq<NodeView>, i: int)
    requires
        0 <= i,
    ensures
        exists|idx: Seq<int>| #[trigger] items_order_witness(idx, s, i),
    decreases s.len() - i,
{
    if i < s.len() {
        lemma_items_document_order(s, i + 1);
        let rest = choose|idx: Seq<int>| #[trigger] items_order_witness(idx, s, i + 1);
        match item_of(s[i], s, i + 1) {
            Some(it) => {
                let here = seq![i] + rest;
                assert(items_order_witness(here, s, i)) by {
                    assert(items_of(s, i) == seq![it] + items_of(s, i + 1));
                    assert forall|a: int| 0 <= a < here.len() implies i <= here[a] < s.len()
                        && item_of(s[here[a]], s, here[a] + 1) == Some(items_of(s, i)[a]) by {
                        if a > 0 {
                            assert(here[a] == rest[a - 1]);
                            assert(items_of(s, i)[a] == items_of(s, i + 1)[a - 1]);
                        }
                    }
                }
            },
            None => {
                assert(items_order_witness(rest, s, i));
            },
        }
    } else {
        let none = Seq::<int>::empty();
        assert(items_order_witness(none, s, i));
    }
}

/// Presence-only booleans: on a folder header, a hint attribute that is
/// present — with or without a value — makes its flag true and its
/// absence makes it false, while a value-bearing attribute is taken
/// verbatim, the empty string standing in only when it is absent.
pub proof fn lemma_presence_attributes(n: NodeView, sib: Seq<NodeView>, k: int)
    requires
        is_element_named(n, "h3"@),
    ensures
        folder_of(n, sib, k) matches Some(f) && (f.folded <==> node_attr(n, "folded"@) is Some) && (
        f.personal_toolbar_folder <==> node_attr(n, "personal_toolbar_folder"@) is Some) && (match
            node_attr(n, "add_date"@) {
            Some(v) => f.add_date == v,
            None => f.add_date == Seq::<char>::empty(),
        }) && (match node_attr(n, "last_modified"@) {
            Some(v) => f.last_modified == v,
            None => f.last_modified == Seq::<char>::empty(),
        }),
{
    lemma_not_both_h3_dt(n);
}

/// A tag that matches the header name cannot match the wrapper name.
proof fn lemma_not_both_h3_dt(n: NodeView)
    requires
        is_element_named(n, "h3"@),
    ensures
        !is_element_named(n, "dt"@),
{
    reveal_strlit("h3");
    reveal_strlit("dt");
    if is_element_named(n, "dt"@) {
        match n {
            NodeView::Element { tag, .. } => {
                assert(lower_code(tag[1]) == lower_code("h3"@[1]));
                assert(lower_code(tag[1]) == lower_code("dt"@[1]));
                assert(false);
            },
            _ => {},
        }
    }
}

/// Fault tolerance: an element of unrecognized tag produces no item, and
/// the items built from the sequence are exactly those built without it
/// — its presence has no effect on its siblings.
pub proof fn lemma_unrecognized_skipped(s: Seq<NodeView>, i: int)
    requires
        0 <= i < s.len(),
        s[i] matches NodeView::Element { tag, .. } && !str_ieq(tag, "dt"@) && !str_ieq(tag, "h3"@)
            && !str_ieq(tag, "a"@),
    ensures
        item_of(s[i], s, i + 1) is None,
        items_of(s, i) == items_of(s, i + 1),
{
}

/// Empty-folder handling: a folder header with no following list
/// container still builds a folder — with an empty children sequence —
/// which is distinct from building no folder at all.
pub proof fn lemma_empty_folder(n: NodeView, sib: Seq<NodeView>, k: int)
    requires
        is_element_named(n, "h3"@),
        first_named(sib, "dl"@, k) is None,
    ensures
        folder_of(n, sib, k) matches Some(f) && f.children == Seq::<ItemView>::empty(),
{
    lemma_not_both_h3_dt(n);
}

} // verus!

