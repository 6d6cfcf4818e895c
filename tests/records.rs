use zotero_notes::datatypes::createBookFromItem;
use zotero_notes::json_parser::{Creator, Item, Note, Tag};
use zotero_notes::template::fill_template;
use zotero_notes::text::{chars_of, concat_text, join_text, same_text, strip_prefix};

fn item() -> Item {
    Item {
        id: "id1".to_string(),
        item_type: "book".to_string(),
        doi: None,
        title: Some("Full".to_string()),
        library_catalog: None,
        url: Some("https://u".to_string()),
        creators: vec![
            Creator { creator_type: Some("author".to_string()), first_name: Some("A".to_string()), last_name: Some("B".to_string()), name: None },
            Creator { creator_type: None, first_name: None, last_name: None, name: Some("C".to_string()) },
        ],
        isbn: Some("123".to_string()),
        short_title: Some("Short".to_string()),
        select: Some("local".to_string()),
        uri: Some("cloud".to_string()),
        published_date: Some("1999".to_string()),
        journal: None,
        tags: vec![Tag { tag: "t1".to_string() }, Tag { tag: "t2".to_string() }],
        notes: vec![Note { date_added: "d".to_string(), date_modified: "m".to_string(), content: "<p>hi</p>".to_string(), uri: "u".to_string() }],
    }
}

#[test]
fn item_text_lists_present_fields() {
    let expected = "---\nresouce_type: book\nID: id1\nURL: https://u\nisbn_13: 123\ntitle: Full\npublished_date: 1999\n#title: Short\nOpen in Zotero (library): local\nOpen in Zotero (cloud): cloud\ntags: [\"t1\", \"t2\"]\ncreators: [\n{ creator_type: \"author\", first_name: \"A\", last_name: \"B\" },\n{ name: \"C\" },]\nnotes: [\n\t{ <p>hi</p> },\n]\n---\n";
    assert_eq!(item().to_string(), expected);
}

#[test]
fn item_text_without_lists() {
    let mut i = item();
    i.tags = Vec::new();
    i.creators = Vec::new();
    i.notes = Vec::new();
    i.url = None;
    i.isbn = None;
    i.title = None;
    i.short_title = None;
    i.select = None;
    i.uri = None;
    i.published_date = None;
    i.doi = Some("10/x".to_string());
    i.journal = Some("J".to_string());
    i.library_catalog = Some("Cat".to_string());
    assert_eq!(i.to_string(), "---\nresouce_type: book\nID: id1\nDOI: 10/x\njournal: J\nsource: Cat\ntags: []\ncreators: []\nnotes: [\n]\n---\n");
}

#[test]
fn creator_text_shows_present_fields() {
    let c = Creator { creator_type: Some("editor".to_string()), first_name: Some("F".to_string()), last_name: None, name: Some("N".to_string()) };
    assert_eq!(c.to_string(), "creator_type: \"editor\", name: \"N\"");
    let bare = Creator { creator_type: None, first_name: None, last_name: None, name: None };
    assert_eq!(bare.to_string(), "");
    assert_eq!(Tag { tag: "x".to_string() }.to_string(), "x");
}

#[test]
fn note_takes_its_text_nodes_as_content() {
    let n = Note { date_added: "d".to_string(), date_modified: "m".to_string(), content: "<b>Hel</b>lo".to_string(), uri: "u".to_string() };
    let plain = n.with_text_nodes(&vec!["Hel".to_string(), "lo".to_string()]);
    assert_eq!(plain.content, "Hello");
    assert_eq!(plain.date_added, "d");
    assert_eq!(plain.uri, "u");
    assert_eq!(plain.to_string(), "Hello");
}

#[test]
fn book_of_the_first_layout() {
    let b = createBookFromItem(&item());
    assert_eq!(b.id, "id1");
    assert_eq!(b.isbn, "123");
    assert_eq!(b.short_title, "Short");
    assert_eq!(b.authors.len(), 2);
    assert_eq!(b.tags.len(), 2);
    assert_eq!(b.notes[0].content, "<p>hi</p>");
    assert_eq!(
        b.render("# {{title}} ({{publish_date}}) [[{{citekey}}]] {{full_title}} {{zotero_local_link}} {{zotero_cloud_link}} {{authors}}"),
        "# Short (1999) [[id1]] Full local cloud {{authors}}"
    );
}

#[test]
fn text_helpers() {
    assert_eq!(chars_of("héllo"), vec!['h', 'é', 'l', 'l', 'o']);
    assert!(same_text("abc", "abc"));
    assert!(!same_text("abc", "abd"));
    assert!(!same_text("abc", "ab"));
    assert!(same_text("", ""));
    assert_eq!(strip_prefix("prefix-rest", "prefix-"), Some("rest".to_string()));
    assert_eq!(strip_prefix("pre", "prefix"), None);
    assert_eq!(concat_text(&vec!["a".to_string(), "".to_string(), "bc".to_string()]), "abc");
    assert_eq!(join_text(&vec!["a".to_string(), "b".to_string(), "c".to_string()], ", "), "a, b, c");
    assert_eq!(join_text(&Vec::new(), ", "), "");
}

#[test]
fn template_filling() {
    let subs = vec![("{{a}}".to_string(), "1".to_string()), ("{{b}}".to_string(), "{{a}}".to_string())];
    assert_eq!(fill_template("x{{a}}y{{b}}z{{a}}{{c}}", &subs), "x1y{{a}}z1{{c}}");
    assert_eq!(fill_template("{{{a}}}", &subs), "{1}");
    assert_eq!(fill_template("", &subs), "");
    assert_eq!(fill_template("é{{a}}ü", &subs), "é1ü");
    let empty_token = vec![("".to_string(), "never".to_string())];
    assert_eq!(fill_template("abc", &empty_token), "abc");
}
