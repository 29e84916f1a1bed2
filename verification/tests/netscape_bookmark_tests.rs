use netscape_bookmark::bookmark::Bookmark;
use netscape_bookmark::dom::{Attr, Node};
use netscape_bookmark::folder::Folder;
use netscape_bookmark::item::Item;
use netscape_bookmark::netscape::Netscape;

fn elem(tag: &str, attrs: Vec<Attr>, children: Vec<Node>) -> Node {
    Node::Element { tag: String::from(tag), attrs, children }
}

fn attr(name: &str, value: &str) -> Attr {
    Attr { name: String::from(name), value: String::from(value) }
}

fn text(t: &str) -> Node {
    Node::Text { text: String::from(t) }
}

fn bookmark(href: &str, title: &str, add_date: &str) -> Bookmark {
    Bookmark {
        href: String::from(href),
        title: String::from(title),
        add_date: String::from(add_date),
        last_visit: String::new(),
        last_modified: String::new(),
    }
}

#[test]
fn render_folder_html() {
    let rendered = "<DT><H3 FOLDED ADD_DATE=\"date\" LAST_MODIFIED=\"date\">name</H3>\n<DL><p>\n</DL><p>";
    let folder = Folder {
        title: String::from("name"),
        folded: true,
        personal_toolbar_folder: false,
        unfiled_bookmarks_folder: false,
        last_modified: String::from("date"),
        add_date: String::from("date"),
        children: vec![],
    };

    assert_eq!(folder.render(), rendered);
}

#[test]
fn parse_netscape_empty_folder() {
    let h3 = elem(
        "H3",
        vec![attr("FOLDED", ""), attr("ADD_DATE", "date"), attr("LAST_MODIFIED", "date")],
        vec![text("title")],
    );
    let siblings = vec![text("\n    "), elem("DL", vec![], vec![elem("p", vec![], vec![])])];

    assert_eq!(
        Folder::from_node(&h3, &siblings, 0).unwrap(),
        Folder {
            title: String::from("title"),
            folded: true,
            personal_toolbar_folder: false,
            unfiled_bookmarks_folder: false,
            last_modified: String::from("date"),
            add_date: String::from("date"),
            children: vec![]
        }
    )
}

fn plain_folder(title: &str, children: Vec<Item>) -> Folder {
    Folder {
        title: String::from(title),
        folded: false,
        personal_toolbar_folder: false,
        unfiled_bookmarks_folder: false,
        add_date: String::new(),
        last_modified: String::new(),
        children,
    }
}

fn folder_dt(title: &str, members: Vec<Node>) -> Node {
    elem(
        "DT",
        vec![],
        vec![elem("H3", vec![], vec![text(title)]), elem("DL", vec![], members)],
    )
}

#[test]
fn parse_netscape_nested_folders() {
    let dt3 = elem("DT", vec![], vec![elem("H3", vec![], vec![text("nested3")])]);
    let dt2 = folder_dt("nested2", vec![dt3]);
    let dt1 = folder_dt("nested1", vec![dt2]);
    let dt0 = folder_dt("nested0", vec![dt1]);

    let n3 = Item::Subfolder(plain_folder("nested3", vec![]));
    let n2 = Item::Subfolder(plain_folder("nested2", vec![n3]));
    let n1 = Item::Subfolder(plain_folder("nested1", vec![n2]));

    assert_eq!(
        Folder::from_node(&dt0, &vec![], 0).unwrap(),
        plain_folder("nested0", vec![n1])
    )
}

#[test]
fn serialize_json_folder() {
    let json = "{\"title\":\"title\",\"folded\":false,\"add_date\":\"date\",\"last_modified\":\"date\",\"personal_toolbar_folder\":true,\"unfiled_bookmarks_folder\":false,\"children\":[]}";
    let folder = Folder {
        title: String::from("title"),
        folded: false,
        personal_toolbar_folder: true,
        unfiled_bookmarks_folder: false,
        add_date: String::from("date"),
        last_modified: String::from("date"),
        children: vec![],
    };

    assert_eq!(folder.to_json(), json)
}

#[test]
fn parse_netscape_header() {
    let html = "
<!DOCTYPE NETSCAPE-Bookmark-file-1>
    <!--This is an automatically generated file.
    It will be read and overwritten.
    Do Not Edit! -->
    <Title>Collection Title</Title>
    <H1>Collection Head</H1>";
    let netscape = Netscape::from_string(html).unwrap();

    assert_eq!(netscape.title, "Collection Title");
    assert_eq!(netscape.h1, "Collection Head");
}

fn framasoft_kernel_markup() -> String {
    String::from(
        "<!DOCTYPE NETSCAPE-Bookmark-file-1>\n<TITLE>Bookmarks</TITLE>\n<H1>Bookmarks</H1>\n<DL><p>\n<DT><A HREF=\"https://framasoft.org/\" ADD_DATE=\"1466009059\">Framasoft ~ Page portail du réseau</A>\n<DT><A HREF=\"https://www.kernel.org/\" ADD_DATE=\"1466009167\">The Linux Kernel Archives</A>\n</DL><p>\n",
    )
}

#[test]
fn parse_netscape_file() {
    let label = String::from("Bookmarks");

    assert_eq!(
        Netscape::from_string(framasoft_kernel_markup().as_str()).unwrap(),
        Netscape {
            title: label.clone(),
            h1: label,
            children: vec![
                Item::Shortcut(bookmark(
                    "https://framasoft.org/",
                    "Framasoft ~ Page portail du réseau",
                    "1466009059"
                )),
                Item::Shortcut(bookmark(
                    "https://www.kernel.org/",
                    "The Linux Kernel Archives",
                    "1466009167"
                ))
            ]
        }
    );
}

#[test]
fn serialize_json_netscape() {
    let b1 = "{\"href\":\"https://framasoft.org/\",\"title\":\"Framasoft ~ Page portail du réseau\",\"add_date\":\"1466009059\",\"last_visit\":\"\",\"last_modified\":\"\"}";
    let b2 = "{\"href\":\"https://www.kernel.org/\",\"title\":\"The Linux Kernel Archives\",\"add_date\":\"1466009167\",\"last_visit\":\"\",\"last_modified\":\"\"}";

    let json = format!("{{\"title\":\"Bookmarks\",\"h1\":\"Bookmarks\",\"children\":[{},{}]}}", b1, b2);

    let netscape = Netscape::from_string(framasoft_kernel_markup().as_str()).unwrap();

    assert_eq!(netscape.to_json(), json)
}

#[test]
fn roundtrip_document_markup() {
    let doc = Netscape {
        title: String::from("My bookmarks"),
        h1: String::from("All of them"),
        children: vec![
            Item::Shortcut(bookmark("https://example.org/", "Example", "100")),
            Item::Subfolder(Folder {
                title: String::from("work"),
                folded: true,
                personal_toolbar_folder: true,
                unfiled_bookmarks_folder: false,
                add_date: String::from("200"),
                last_modified: String::from("300"),
                children: vec![Item::Shortcut(bookmark("https://kernel.org/", "Kernel", "400"))],
            }),
        ],
    };

    let reparsed = Netscape::from_string(doc.to_string().as_str()).unwrap();

    assert_eq!(reparsed, doc);
}

#[test]
fn presence_flag_parsing() {
    let html = "<TITLE>t</TITLE><H1>t</H1><DL><p>\n<DT><H3 FOLDED ADD_DATE=\"42\">a</H3>\n<DL><p></DL><p>\n<DT><H3>b</H3>\n<DL><p></DL><p>\n</DL><p>";
    let netscape = Netscape::from_string(html).unwrap();

    assert_eq!(netscape.children.len(), 2);
    match &netscape.children[0] {
        Item::Subfolder(f) => {
            assert!(f.folded);
            assert_eq!(f.add_date, "42");
            assert_eq!(f.last_modified, "");
        }
        _ => panic!("expected a folder"),
    }
    match &netscape.children[1] {
        Item::Subfolder(f) => {
            assert!(!f.folded);
            assert_eq!(f.add_date, "");
        }
        _ => panic!("expected a folder"),
    }
}

#[test]
fn unknown_tags_skipped() {
    let html = "<TITLE>t</TITLE><H1>t</H1><DL><p>\n<DT><A HREF=\"https://a.example/\">a</A>\n<SPAN>noise</SPAN>\n<DT><A HREF=\"https://b.example/\">b</A>\n</DL><p>";
    let netscape = Netscape::from_string(html).unwrap();

    assert_eq!(netscape.children.len(), 2);
    match &netscape.children[0] {
        Item::Shortcut(b) => assert_eq!(b.href, "https://a.example/"),
        _ => panic!("expected a shortcut"),
    }
    match &netscape.children[1] {
        Item::Shortcut(b) => assert_eq!(b.href, "https://b.example/"),
        _ => panic!("expected a shortcut"),
    }
}

#[test]
fn empty_folder_without_container() {
    let h3 = elem("H3", vec![], vec![text("lonely")]);
    let siblings = vec![text("\n"), elem("p", vec![], vec![])];

    let folder = Folder::from_node(&h3, &siblings, 0).unwrap();
    assert_eq!(folder.title, "lonely");
    assert!(folder.children.is_empty());

    let not_a_header = elem("p", vec![], vec![text("lonely")]);
    assert!(Folder::from_node(&not_a_header, &siblings, 0).is_none());
}

#[test]
fn attribute_case_and_value() {
    let a = elem(
        "a",
        vec![attr("href", "https://x.example/"), attr("add_date", "7")],
        vec![text("x")],
    );
    let b = Bookmark::from_node(&a);

    assert_eq!(b.href, "https://x.example/");
    assert_eq!(b.add_date, "7");
    assert_eq!(b.last_visit, "");
    assert_eq!(b.title, "x");
}

#[test]
fn json_escaping() {
    let b = Bookmark {
        href: String::from("https://x.example/?q=\"s\"&p=a\\b"),
        title: String::from("line\nbreak\ttab"),
        add_date: String::new(),
        last_visit: String::new(),
        last_modified: String::new(),
    };

    assert_eq!(
        b.to_json(),
        "{\"href\":\"https://x.example/?q=\\\"s\\\"&p=a\\\\b\",\"title\":\"line\\nbreak\\ttab\",\"add_date\":\"\",\"last_visit\":\"\",\"last_modified\":\"\"}"
    );
}

#[test]
fn render_bookmark_markup() {
    let b = bookmark("https://example.org/", "Example", "12345");

    assert_eq!(
        b.render(),
        "<DT><A HREF=\"https://example.org/\" ADD_DATE=\"12345\" LAST_VISIT=\"\" LAST_MODIFIED=\"\">Example</A>"
    );
}

#[test]
fn render_folder_all_flags() {
    let folder = Folder {
        title: String::from("bar"),
        folded: false,
        personal_toolbar_folder: true,
        unfiled_bookmarks_folder: true,
        add_date: String::from("1"),
        last_modified: String::from("2"),
        children: vec![Item::Shortcut(bookmark("https://example.org/", "e", "3"))],
    };

    assert_eq!(
        folder.render(),
        "<DT><H3 ADD_DATE=\"1\" LAST_MODIFIED=\"2\" PERSONAL_TOOLBAR_FOLDER UNFILED_BOOKMARKS_FOLDER>bar</H3>\n<DL><p>\n<DT><A HREF=\"https://example.org/\" ADD_DATE=\"3\" LAST_VISIT=\"\" LAST_MODIFIED=\"\">e</A>\n</DL><p>"
    );
}

#[test]
fn nested_folders_from_string() {
    let html = "<TITLE>t</TITLE><H1>t</H1><DL><p>\n<DT><H3>outer</H3>\n<DL><p>\n<DT><H3>middle</H3>\n<DL><p>\n<DT><H3>inner</H3>\n</DL><p>\n</DL><p>\n</DL><p>";
    let netscape = Netscape::from_string(html).unwrap();

    let inner = Item::Subfolder(plain_folder("inner", vec![]));
    let middle = Item::Subfolder(plain_folder("middle", vec![inner]));
    let outer = Item::Subfolder(plain_folder("outer", vec![middle]));

    assert_eq!(netscape.children.len(), 1);
    assert_eq!(netscape.children[0], outer);
}

#[test]
fn parse_folder_header_from_string() {
    let html = "<TITLE>t</TITLE><H1>t</H1><DL><p>\n<DT><H3 FOLDED ADD_DATE=\"date\" LAST_MODIFIED=\"date\">name</H3>\n<DL><p>\n</DL><p>\n</DL><p>";
    let netscape = Netscape::from_string(html).unwrap();

    assert_eq!(netscape.children.len(), 1);
    match &netscape.children[0] {
        Item::Subfolder(f) => {
            assert_eq!(f.title, "name");
            assert!(f.folded);
            assert_eq!(f.add_date, "date");
            assert_eq!(f.last_modified, "date");
            assert!(!f.personal_toolbar_folder);
            assert!(!f.unfiled_bookmarks_folder);
            assert!(f.children.is_empty());
        }
        _ => panic!("expected a folder"),
    }
}
