//! Re-emitting markup text from a typed tree.
//!
//! Rendering substitutes the tree's fields into one fixed textual layout
//! per entity kind, mirroring the structure that the builders read: a
//! folder becomes a header element whose presence flags stand only when
//! set, followed by its list container with one member per line.  The
//! output need not be byte-identical to what was parsed; round-trip
//! fidelity is semantic, at the level of the typed tree.

use vstd::prelude::*;
use vstd::string::StringExecFns;
use crate::bookmark::{Bookmark, BookmarkView};
use crate::folder::{Folder, FolderView};
use crate::item::{items_view, Item, ItemView};
use crate::netscape::{Netscape, NetscapeView};

verus! {

/// The markup text of one shortcut.
pub open spec fn render_bookmark(b: BookmarkView) -> Seq<char> {
    "<DT><A HREF=\""@ + b.href + "\" ADD_DATE=\""@ + b.add_date + "\" LAST_VISIT=\""@
        + b.last_visit + "\" LAST_MODIFIED=\""@ + b.last_modified + "\">"@ + b.title + "</A>"@
}

/// The markup text of one folder: its header with the presence flags it
/// has set and its timestamps, then its list container holding every
/// member on a line of its own.
pub open spec fn render_folder(f: FolderView) -> Seq<char>
    decreases f, 0int,
{
    "<DT><H3"@ + (if f.folded {
        " FOLDED"@
    } else {
        Seq::<char>::empty()
    }) + " ADD_DATE=\""@ + f.add_date + "\" LAST_MODIFIED=\""@ + f.last_modified + "\""@ + (
    if f.personal_toolbar_folder {
        " PERSONAL_TOOLBAR_FOLDER"@
    } else {
        Seq::<char>::empty()
    }) + (if f.unfiled_bookmarks_folder {
        " UNFILED_BOOKMARKS_FOLDER"@
    } else {
        Seq::<char>::empty()
    }) + ">"@ + f.title + "</H3>\n<DL><p>\n"@ + render_items(f.children, 0) + "</DL><p>"@
}

/// The markup text of one item.
pub open spec fn render_item(it: ItemView) -> Seq<char>
    decreases it, 0int,
{
    match it {
        ItemView::Subfolder(f) => render_folder(f),
        ItemView::Shortcut(b) => render_bookmark(b),
    }
}

/// The markup text of the items `s[i..]`, one per line.
pub open spec fn render_items(s: Seq<ItemView>, i: int) -> Seq<char>
    decreases s, s.len() - i,
{
    if 0 <= i < s.len() {
        render_item(s[i]) + "\n"@ + render_items(s, i + 1)
    } else {
        Seq::empty()
    }
}

/// The markup text of a whole document.
pub open spec fn render_netscape(d: NetscapeView) -> Seq<char> {
    "<!DOCTYPE NETSCAPE-Bookmark-file-1>\n<TITLE>"@ + d.title + "</TITLE>\n<H1>"@ + d.h1
        + "</H1>\n<DL><p>\n"@ + render_items(d.children, 0) + "</DL><p>\n"@
}

fn push_bookmark(b: &Bookmark, out: &mut String)
    ensures
        final(out)@ == old(out)@ + render_bookmark(b@),
{
    out.append("<DT><A HREF=\"");
    out.append(b.href.as_str());
    out.append("\" ADD_DATE=\"");
    out.append(b.add_date.as_str());
    out.append("\" LAST_VISIT=\"");
    out.append(b.last_visit.as_str());
    out.append("\" LAST_MODIFIED=\"");
    out.append(b.last_modified.as_str());
    out.append("\">");
    out.append(b.title.as_str());
    out.append("</A>");
    proof {
        assert(out@ =~= old(out)@ + render_bookmark(b@));
    }
}

fn push_folder(f: &Folder, out: &mut String)
    ensures
        final(out)@ == old(out)@ + render_folder(f@),
    decreases f, 0int,
{
    out.append("<DT><H3");
    if f.folded {
        out.append(" FOLDED");
    }
    out.append(" ADD_DATE=\"");
    out.append(f.add_date.as_str());
    out.append("\" LAST_MODIFIED=\"");
    out.append(f.last_modified.as_str());
    out.append("\"");
    if f.personal_toolbar_folder {
        out.append(" PERSONAL_TOOLBAR_FOLDER");
    }
    if f.unfiled_bookmarks_folder {
        out.append(" UNFILED_BOOKMARKS_FOLDER");
    }
    out.append(">");
    out.append(f.title.as_str());
    out.append("</H3>\n<DL><p>\n");
    push_items(&f.children, 0, out);
    out.append("</DL><p>");
    proof {
        assert(out@ =~= old(out)@ + render_folder(f@));
    }
}

fn push_item(it: &Item, out: &mut String)
    ensures
        final(out)@ == old(out)@ + render_item(it@),
    decreases it, 0int,
{
    match it {
        Item::Subfolder(f) => push_folder(f, out),
        Item::Shortcut(b) => push_bookmark(b, out),
    }
}

fn push_items(s: &Vec<Item>, i: usize, out: &mut String)
    requires
        i <= s@.len(),
    ensures
        final(out)@ == old(out)@ + render_items(items_view(s@), i as int),
    decreases s@, s@.len() - i,
{
    if i < s.len() {
        push_item(&s[i], out);
        out.append("\n");
        push_items(s, i + 1, out);
        proof {
            assert(out@ =~= old(out)@ + render_items(items_view(s@), i as int));
        }
    } else {
        proof {
            assert(out@ =~= old(out)@ + render_items(items_view(s@), i as int));
        }
    }
}

impl Bookmark {
    /// Renders this shortcut as bookmark markup.
    pub fn render(&self) -> (r: String)
        ensures
            r@ == render_bookmark(self@),
    {
        let mut out = String::new();
        push_bookmark(self, &mut out);
        proof {
            assert(out@ =~= render_bookmark(self@));
        }
        out
    }
}

impl Folder {
    /// Renders this folder as bookmark markup.
    pub fn render(&self) -> (r: String)
        ensures
            r@ == render_folder(self@),
    {
        let mut out = String::new();
        push_folder(self, &mut out);
        proof {
            assert(out@ =~= render_folder(self@));
        }
        out
    }
}

impl Netscape {
    /// Renders this document as bookmark markup text.
    pub fn to_string(&self) -> (r: String)
        ensures
            r@ == render_netscape(self@),
    {
        let mut out = String::new();
        out.append("<!DOCTYPE NETSCAPE-Bookmark-file-1>\n<TITLE>");
        out.append(self.title.as_str());
        out.append("</TITLE>\n<H1>");
        out.append(self.h1.as_str());
        out.append("</H1>\n<DL><p>\n");
        push_items(&self.children, 0, &mut out);
        out.append("</DL><p>\n");
        proof {
            assert(out@ =~= render_netscape(self@));
        }
        out
    }
}

} // verus!
