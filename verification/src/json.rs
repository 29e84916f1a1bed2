//! JSON serialization of the typed tree.
//!
//! The field names, their order and their presence are fixed and
//! exhaustive: no field is omitted even when empty.  String content is
//! escaped the standard way — quote, backslash and control characters
//! only — and everything else is carried verbatim.

use vstd::prelude::*;
use vstd::string::StrSliceExecFns;
use vstd::string::StringExecFns;
use crate::bookmark::{Bookmark, BookmarkView};
use crate::folder::{Folder, FolderView};
use crate::item::{items_view, Item, ItemView};
use crate::netscape::{Netscape, NetscapeView};

verus! {

/// The character for the hex digit `d`, in small letters.
pub open spec fn hex_digit(d: int) -> char {
    if d == 0 {
        '0'
    } else if d == 1 {
        '1'
    } else if d == 2 {
        '2'
    } else if d == 3 {
        '3'
    } else if d == 4 {
        '4'
    } else if d == 5 {
        '5'
    } else if d == 6 {
        '6'
    } else if d == 7 {
        '7'
    } else if d == 8 {
        '8'
    } else if d == 9 {
        '9'
    } else if d == 10 {
        'a'
    } else if d == 11 {
        'b'
    } else if d == 12 {
        'c'
    } else if d == 13 {
        'd'
    } else if d == 14 {
        'e'
    } else {
        'f'
    }
}

/// The escape of one character inside a JSON string literal: quote and
/// backslash are escaped, control characters take their short escapes or
/// a `\u00..` form, and every other character stands as itself.
pub open spec fn json_escape_char(c: char) -> Seq<char> {
    if c == '"' {
        "\\\""@
    } else if c == '\\' {
        "\\\\"@
    } else if c == '\u{8}' {
        "\\b"@
    } else if c == '\t' {
        "\\t"@
    } else if c == '\n' {
        "\\n"@
    } else if c == '\u{c}' {
        "\\f"@
    } else if c == '\r' {
        "\\r"@
    } else if (c as int) < 32 {
        "\\u00"@ + seq![hex_digit(c as int / 16), hex_digit(c as int % 16)]
    } else {
        seq![c]
    }
}

/// The escapes of the characters `s[i..]`, concatenated.
pub open spec fn json_escaped(s: Seq<char>, i: int) -> Seq<char>
    decreases s.len() - i,
{
    if 0 <= i < s.len() {
        json_escape_char(s[i]) + json_escaped(s, i + 1)
    } else {
        Seq::empty()
    }
}

/// A JSON string literal holding `s`.
pub open spec fn json_quoted(s: Seq<char>) -> Seq<char> {
    "\""@ + json_escaped(s, 0) + "\""@
}

/// A JSON boolean.
pub open spec fn json_bool(b: bool) -> Seq<char> {
    if b {
        "true"@
    } else {
        "false"@
    }
}

/// The JSON object of one shortcut.
pub open spec fn json_of_bookmark(b: BookmarkView) -> Seq<char> {
    "{\"href\":"@ + json_quoted(b.href) + ",\"title\":"@ + json_quoted(b.title) + ",\"add_date\":"@
        + json_quoted(b.add_date) + ",\"last_visit\":"@ + json_quoted(b.last_visit)
        + ",\"last_modified\":"@ + json_quoted(b.last_modified) + "}"@
}

/// The JSON object of one folder.
pub open spec fn json_of_folder(f: FolderView) -> Seq<char>
    decreases f, 0int,
{
    "{\"title\":"@ + json_quoted(f.title) + ",\"folded\":"@ + json_bool(f.folded)
        + ",\"add_date\":"@ + json_quoted(f.add_date) + ",\"last_modified\":"@ + json_quoted(
        f.last_modified,
    ) + ",\"personal_toolbar_folder\":"@ + json_bool(f.personal_toolbar_folder)
        + ",\"unfiled_bookmarks_folder\":"@ + json_bool(f.unfiled_bookmarks_folder)
        + ",\"children\":["@ + json_of_items(f.children, 0) + "]}"@
}

/// The JSON value of one item.
pub open spec fn json_of_item(it: ItemView) -> Seq<char>
    decreases it, 0int,
{
    match it {
        ItemView::Subfolder(f) => json_of_folder(f),
        ItemView::Shortcut(b) => json_of_bookmark(b),
    }
}

/// The JSON values of the items `s[i..]`, separated by commas.
pub open spec fn json_of_items(s: Seq<ItemView>, i: int) -> Seq<char>
    decreases s, s.len() - i,
{
    if 0 <= i < s.len() {
        json_of_item(s[i]) + (if i + 1 < s.len() {
            ","@ + json_of_items(s, i + 1)
        } else {
            Seq::<char>::empty()
        })
    } else {
        Seq::empty()
    }
}

/// The JSON object of a whole document.
pub open spec fn json_of_netscape(d: NetscapeView) -> Seq<char> {
    "{\"title\":"@ + json_quoted(d.title) + ",\"h1\":"@ + json_quoted(d.h1) + ",\"children\":["@
        + json_of_items(d.children, 0) + "]}"@
}

/// Relies on String::push: appends exactly the one given character.
#[verifier::external_body]
fn push_char(out: &mut String, c: char)
    ensures
        final(out)@ == old(out)@ + seq![c],
{
    out.push(c);
}

fn push_hex(d: u32, out: &mut String)
    requires
        d < 16,
    ensures
        final(out)@ == old(out)@ + seq![hex_digit(d as int)],
{
    let c: char = if d == 0 {
        '0'
    } else if d == 1 {
        '1'
    } else if d == 2 {
        '2'
    } else if d == 3 {
        '3'
    } else if d == 4 {
        '4'
    } else if d == 5 {
        '5'
    } else if d == 6 {
        '6'
    } else if d == 7 {
        '7'
    } else if d == 8 {
        '8'
    } else if d == 9 {
        '9'
    } else if d == 10 {
        'a'
    } else if d == 11 {
        'b'
    } else if d == 12 {
        'c'
    } else if d == 13 {
        'd'
    } else if d == 14 {
        'e'
    } else {
        'f'
    };
    push_char(out, c);
}

fn push_escaped_char(c: char, out: &mut String)
    ensures
        final(out)@ == old(out)@ + json_escape_char(c),
{
    if c == '"' {
        out.append("\\\"");
    } else if c == '\\' {
        out.append("\\\\");
    } else if c == '\u{8}' {
        out.append("\\b");
    } else if c == '\t' {
        out.append("\\t");
    } else if c == '\n' {
        out.append("\\n");
    } else if c == '\u{c}' {
        out.append("\\f");
    } else if c == '\r' {
        out.append("\\r");
    } else if (c as u32) < 32 {
        out.append("\\u00");
        push_hex((c as u32) / 16, out);
        push_hex((c as u32) % 16, out);
        proof {
            assert(out@ =~= old(out)@ + json_escape_char(c));
        }
    } else {
        push_char(out, c);
    }
}

fn push_json_str(s: &str, i: usize, out: &mut String)
    requires
        i <= s@.len(),
    ensures
        final(out)@ == old(out)@ + json_escaped(s@, i as int),
    decreases s@.len() - i,
{
    let n = s.unicode_len();
    if i < n {
        push_escaped_char(s.get_char(i), out);
        push_json_str(s, i + 1, out);
        proof {
            assert(out@ =~= old(out)@ + json_escaped(s@, i as int));
        }
    } else {
        proof {
            assert(out@ =~= old(out)@ + json_escaped(s@, i as int));
        }
    }
}

fn push_quoted(s: &str, out: &mut String)
    ensures
        final(out)@ == old(out)@ + json_quoted(s@),
{
    out.append("\"");
    push_json_str(s, 0, out);
    out.append("\"");
    proof {
        assert(out@ =~= old(out)@ + json_quoted(s@));
    }
}

fn push_bool(b: bool, out: &mut String)
    ensures
        final(out)@ == old(out)@ + json_bool(b),
{
    if b {
        out.append("true");
    } else {
        out.append("false");
    }
}

fn push_json_bookmark(b: &Bookmark, out: &mut String)
    ensures
        final(out)@ == old(out)@ + json_of_bookmark(b@),
{
    out.append("{\"href\":");
    push_quoted(b.href.as_str(), out);
    out.append(",\"title\":");
    push_quoted(b.title.as_str(), out);
    out.append(",\"add_date\":");
    push_quoted(b.add_date.as_str(), out);
    out.append(",\"last_visit\":");
    push_quoted(b.last_visit.as_str(), out);
    out.append(",\"last_modified\":");
    push_quoted(b.last_modified.as_str(), out);
    out.append("}");
    proof {
        assert(out@ =~= old(out)@ + json_of_bookmark(b@));
    }
}

#[verifier::rlimit(100)]
fn push_json_folder(f: &Folder, out: &mut String)
    ensures
        final(out)@ == old(out)@ + json_of_folder(f@),
    decreases f, 0int,
{
    out.append("{\"title\":");
    push_quoted(f.title.as_str(), out);
    out.append(",\"folded\":");
    push_bool(f.folded, out);
    out.append(",\"add_date\":");
    push_quoted(f.add_date.as_str(), out);
    out.append(",\"last_modified\":");
    push_quoted(f.last_modified.as_str(), out);
    out.append(",\"personal_toolbar_folder\":");
    push_bool(f.personal_toolbar_folder, out);
    out.append(",\"unfiled_bookmarks_folder\":");
    push_bool(f.unfiled_bookmarks_folder, out);
    out.append(",\"children\":[");
    push_json_items(&f.children, 0, out);
    out.append("]}");
    proof {
        assert(out@ =~= old(out)@ + json_of_folder(f@));
    }
}

fn push_json_item(it: &Item, out: &mut String)
    ensures
        final(out)@ == old(out)@ + json_of_item(it@),
    decreases it, 0int,
{
    match it {
        Item::Subfolder(f) => push_json_folder(f, out),
        Item::Shortcut(b) => push_json_bookmark(b, out),
    }
}

fn push_json_items(s: &Vec<Item>, i: usize, out: &mut String)
    requires
        i <= s@.len(),
    ensures
        final(out)@ == old(out)@ + json_of_items(items_view(s@), i as int),
    decreases s@, s@.len() - i,
{
    if i < s.len() {
        push_json_item(&s[i], out);
        if i + 1 < s.len() {
            out.append(",");
            push_json_items(s, i + 1, out);
        }
        proof {
            assert(out@ =~= old(out)@ + json_of_items(items_view(s@), i as int));
        }
    } else {
        proof {
            assert(out@ =~= old(out)@ + json_of_items(items_view(s@), i as int));
        }
    }
}

impl Bookmark {
    /// The JSON object of this shortcut, fields fixed and exhaustive.
    pub fn to_json(&self) -> (r: String)
        ensures
            r@ == json_of_bookmark(self@),
    {
        let mut out = String::new();
        push_json_bookmark(self, &mut out);
        proof {
            assert(out@ =~= json_of_bookmark(self@));
        }
        out
    }
}

impl Folder {
    /// The JSON object of this folder, fields fixed and exhaustive.
    pub fn to_json(&self) -> (r: String)
        ensures
            r@ == json_of_folder(self@),
    {
        let mut out = String::new();
        push_json_folder(self, &mut out);
        proof {
            assert(out@ =~= json_of_folder(self@));
        }
        out
    }
}

impl Netscape {
    /// The JSON object of this document, fields fixed and exhaustive.
    pub fn to_json(&self) -> (r: String)
        ensures
            r@ == json_of_netscape(self@),
    {
        let mut out = String::new();
        out.append("{\"title\":");
        push_quoted(self.title.as_str(), &mut out);
        out.append(",\"h1\":");
        push_quoted(self.h1.as_str(), &mut out);
        out.append(",\"children\":[");
        push_json_items(&self.children, 0, &mut out);
        out.append("]}");
        proof {
            assert(out@ =~= json_of_netscape(self@));
        }
        out
    }
}

} // verus!
