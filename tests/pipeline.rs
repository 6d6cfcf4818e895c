use zotero_notes::json_parser::{Creator, Item, Note, Tag};
use zotero_notes::resource_types::{
    classify, display_authors, display_notes, display_tags, generate_notes,
    get_youtube_query_string, AcademicPaper, Article, Book, Category, New, RecordError,
    ReferenceList, References, Render, ResourceList, TEDTalk, Templates, YoutubeVideo,
};

fn text(s: &str) -> Option<String> {
    Some(s.to_string())
}

fn record(id: &str, item_type: &str) -> Item {
    Item {
        id: id.to_string(),
        item_type: item_type.to_string(),
        doi: None,
        title: text("A Title"),
        library_catalog: None,
        url: None,
        creators: Vec::new(),
        isbn: None,
        short_title: None,
        select: text("local://x"),
        uri: text("cloud://x"),
        published_date: None,
        journal: None,
        tags: Vec::new(),
        notes: Vec::new(),
    }
}

fn named(name: &str) -> Creator {
    Creator { creator_type: text("author"), first_name: None, last_name: None, name: text(name) }
}

fn person(first: &str, last: &str) -> Creator {
    Creator { creator_type: text("author"), first_name: text(first), last_name: text(last), name: None }
}

fn note(content: &str) -> Note {
    Note {
        date_added: "2020-01-01".to_string(),
        date_modified: "2020-01-02".to_string(),
        content: content.to_string(),
        uri: "http://zotero.org/n".to_string(),
    }
}

fn tag(t: &str) -> Tag {
    Tag { tag: t.to_string() }
}

fn book_record() -> Item {
    let mut item = record("smith2020", "book");
    item.isbn = text("978-0-1");
    item.title = text("On Systems");
    item.short_title = text("Systems");
    item.published_date = text("2020");
    item.creators = vec![Creator { creator_type: None, first_name: text("Jane"), last_name: text("Smith"), name: None }];
    item.tags = vec![tag("software")];
    item.uri = text("cloud://x");
    item.select = text("local://x");
    item
}

fn youtube_record(url: &str) -> Item {
    let mut item = record("vid1", "videoRecording");
    item.library_catalog = text("YouTube");
    item.url = text(url);
    item.creators = vec![Creator { creator_type: None, first_name: None, last_name: None, name: text("SomeChannel") }];
    item
}

fn templates(book: &str) -> Templates {
    Templates {
        article: "A {{id}}".to_string(),
        academic_paper: "P {{id}}".to_string(),
        book: book.to_string(),
        ted_talk: "T {{speaker}}".to_string(),
        youtube_video: "Y {{url_query_string}} {{channel}}".to_string(),
    }
}

#[test]
fn book_end_to_end_writes_file() {
    let items = vec![book_record()];
    let t = templates("{{id}} | {{full_title}} ({{publish_date}}) ISBN {{isbn_13}} by{{authors}}");
    let notes = generate_notes(&items, &t, ".md");
    assert_eq!(notes.files.len(), 1);
    assert!(notes.failures.is_empty());
    let f = &notes.files[0];
    assert_eq!(f.folder, "Books");
    assert_eq!(f.file_name, "smith2020.md");
    assert_eq!(f.content, "smith2020 | On Systems (2020) ISBN 978-0-1 by\n- [[Jane Smith]]");
}

#[test]
fn youtube_record_classifies_with_query_and_channel() {
    let mut bare = record("vid1", "videoRecording");
    bare.title = None;
    bare.uri = None;
    bare.select = None;
    bare.library_catalog = text("YouTube");
    bare.url = text("https://www.youtube.com/watch?v=abc123");
    bare.creators = vec![named("SomeChannel")];
    assert_eq!(classify(&bare), Some(Category::YoutubeVideo));

    let item = youtube_record("https://www.youtube.com/watch?v=abc123");
    assert_eq!(classify(&item), Some(Category::YoutubeVideo));
    let video = match YoutubeVideo::new(&item) {
        Ok(Some(v)) => v,
        _ => panic!("expected a video"),
    };
    assert_eq!(video.url_query_string, "abc123");
    assert_eq!(video.channel, "SomeChannel");
    assert!(TEDTalk::new(&item).unwrap().is_none());
}

#[test]
fn youtube_wrong_prefix_is_reported() {
    assert_eq!(get_youtube_query_string("https://vimeo.com/123"), None);
    let item = youtube_record("https://vimeo.com/123");
    assert_eq!(classify(&item), Some(Category::YoutubeVideo));
    assert!(matches!(YoutubeVideo::new(&item), Err(RecordError::BadYoutubeUrl)));
    let notes = generate_notes(&vec![item], &templates("B"), ".md");
    assert!(notes.files.is_empty());
    assert_eq!(notes.failures.len(), 1);
    assert_eq!(notes.failures[0].id, "vid1");
    assert_eq!(notes.failures[0].reason, RecordError::BadYoutubeUrl);
}

#[test]
fn query_string_is_what_follows_the_prefix() {
    assert_eq!(get_youtube_query_string("https://www.youtube.com/watch?v=xyz&t=5"), Some("xyz&t=5".to_string()));
    assert_eq!(get_youtube_query_string("https://www.youtube.com/watch?v="), Some(String::new()));
    assert_eq!(get_youtube_query_string("http://www.youtube.com/watch?v=abc"), None);
}

#[test]
fn classification_follows_type_and_fields() {
    let mut b = record("b", "book");
    assert_eq!(classify(&b), None);
    b.isbn = text("1");
    assert_eq!(classify(&b), Some(Category::Book));

    let mut p = record("p", "journalArticle");
    assert_eq!(classify(&p), None);
    p.doi = text("10.1/x");
    assert_eq!(classify(&p), Some(Category::AcademicPaper));

    let mut w = record("w", "webpage");
    assert_eq!(classify(&w), None);
    w.url = text("https://a.b");
    assert_eq!(classify(&w), Some(Category::Article));
    let mut g = record("g", "blogPost");
    g.url = text("https://a.b");
    assert_eq!(classify(&g), Some(Category::Article));

    let mut ted = record("t", "videoRecording");
    ted.url = text("https://ted.com/x");
    ted.library_catalog = text("www.ted.com");
    assert_eq!(classify(&ted), Some(Category::TEDTalk));
    ted.library_catalog = text("Vimeo");
    assert_eq!(classify(&ted), None);
    ted.library_catalog = None;
    assert_eq!(classify(&ted), None);

    let mut other = record("o", "thesis");
    other.isbn = text("1");
    other.doi = text("2");
    other.url = text("https://a.b");
    assert_eq!(classify(&other), None);
}

#[test]
fn overlapping_looking_records_land_in_one_category() {
    let mut item = record("x", "videoRecording");
    item.library_catalog = text("YouTube");
    item.url = text("https://www.youtube.com/watch?v=q");
    item.isbn = text("1");
    item.doi = text("2");
    item.creators = vec![named("Chan")];
    assert_eq!(classify(&item), Some(Category::YoutubeVideo));
    assert!(TEDTalk::new(&item).unwrap().is_none());
    assert!(Book::new(&item).unwrap().is_none());
    assert!(AcademicPaper::new(&item).unwrap().is_none());
    assert!(Article::new(&item).unwrap().is_none());
    assert!(YoutubeVideo::new(&item).unwrap().is_some());

    let mut book = record("y", "book");
    book.isbn = text("1");
    book.doi = text("2");
    book.url = text("https://a.b");
    book.library_catalog = text("www.ted.com");
    assert_eq!(classify(&book), Some(Category::Book));
    assert!(AcademicPaper::new(&book).unwrap().is_none());
    assert!(TEDTalk::new(&book).unwrap().is_none());
}

#[test]
fn placeholder_twice_and_unknown_placeholder() {
    let mut item = book_record();
    item.tags = vec![tag("a"), tag("b")];
    let b = Book::new(&item).unwrap().unwrap();
    let out = b.render("{{tags}}|{{tags}}|{{unknown}}").unwrap();
    assert_eq!(out, "\n- #a,\n- #b|\n- #a,\n- #b|{{unknown}}");
}

#[test]
fn substitution_is_single_pass() {
    let mut item = book_record();
    item.title = text("Title with {{id}} inside");
    let b = Book::new(&item).unwrap().unwrap();
    assert_eq!(b.render("{{full_title}}").unwrap(), "Title with {{id}} inside");
}

#[test]
fn notes_are_listed_newest_first() {
    let notes = vec![note("N1"), note("N2"), note("N3")];
    assert_eq!(display_notes(&notes), "N3\n---\nN2\n---\nN1\n---");
    assert_eq!(display_notes(&Vec::new()), "");
}

#[test]
fn authors_are_listed_in_order() {
    let creators = vec![named("Ann"), person("Bo", "Li")];
    assert_eq!(display_authors(&creators), Some("\n- [[Ann]],\n- [[Bo Li]]".to_string()));
    assert_eq!(display_authors(&Vec::new()), Some(String::new()));
    let nameless = Creator { creator_type: text("editor"), first_name: text("Only"), last_name: None, name: None };
    assert_eq!(display_authors(&vec![named("Ann"), nameless]), None);
}

#[test]
fn tags_are_listed_in_order_with_duplicates() {
    let tags = vec![tag("x"), tag("y"), tag("x")];
    assert_eq!(display_tags(&tags), "\n- #x,\n- #y,\n- #x");
    assert_eq!(display_tags(&Vec::new()), "");
}

#[test]
fn nameless_author_fails_the_render() {
    let mut item = book_record();
    item.creators = vec![Creator { creator_type: None, first_name: None, last_name: text("Smith"), name: None }];
    let b = Book::new(&item).unwrap().unwrap();
    assert!(matches!(b.render("{{authors}}"), Err(RecordError::MissingAuthorName)));
    let notes = generate_notes(&vec![item], &templates("{{authors}}"), ".md");
    assert!(notes.files.is_empty());
    assert_eq!(notes.failures.len(), 1);
    assert_eq!(notes.failures[0].id, "smith2020");
    assert_eq!(notes.failures[0].reason, RecordError::MissingAuthorName);
}

#[test]
fn missing_common_fields_are_errors() {
    let mut a = book_record();
    a.title = None;
    assert!(matches!(Book::new(&a), Err(RecordError::MissingTitle)));
    let mut b = book_record();
    b.uri = None;
    assert!(matches!(Book::new(&b), Err(RecordError::MissingCloudLink)));
    let mut c = book_record();
    c.select = None;
    assert!(matches!(Book::new(&c), Err(RecordError::MissingLocalLink)));
    let mut d = book_record();
    d.title = None;
    d.uri = None;
    d.select = None;
    assert!(matches!(Book::new(&d), Err(RecordError::MissingTitle)));
}

#[test]
fn missing_category_fields_are_errors() {
    let mut b = book_record();
    b.short_title = None;
    assert!(matches!(Book::new(&b), Err(RecordError::MissingShortTitle)));
    let mut b2 = book_record();
    b2.published_date = None;
    assert!(matches!(Book::new(&b2), Err(RecordError::MissingPublishDate)));

    let mut p = record("p", "journalArticle");
    p.doi = text("10.1/x");
    assert!(matches!(AcademicPaper::new(&p), Err(RecordError::MissingPublishDate)));
    p.published_date = text("2019");
    assert!(matches!(AcademicPaper::new(&p), Err(RecordError::MissingJournal)));
    p.journal = text("J");
    assert!(AcademicPaper::new(&p).unwrap().is_some());

    let mut y = youtube_record("https://www.youtube.com/watch?v=a");
    y.creators = Vec::new();
    assert!(matches!(YoutubeVideo::new(&y), Err(RecordError::MissingChannel)));
    y.creators = vec![person("A", "B")];
    assert!(matches!(YoutubeVideo::new(&y), Err(RecordError::MissingChannel)));

    let mut t = record("t", "videoRecording");
    t.library_catalog = text("www.ted.com");
    t.url = text("https://ted.com/x");
    assert!(matches!(TEDTalk::new(&t), Err(RecordError::MissingSpeaker)));
    t.creators = vec![named("Solo")];
    assert!(matches!(TEDTalk::new(&t), Err(RecordError::MissingSpeaker)));
    t.creators = vec![person("Ada", "Lovelace")];
    let talk = TEDTalk::new(&t).unwrap().unwrap();
    assert_eq!(talk.speaker, "Ada Lovelace");
    assert_eq!(talk.render("{{speaker}} at {{url}}").unwrap(), "[[Ada Lovelace]] at https://ted.com/x");
}

#[test]
fn unmatched_records_are_dropped_quietly() {
    let mut r = References::new();
    let mut no_isbn = record("b", "book");
    no_isbn.title = None;
    let unknown = record("u", "podcast");
    let failures = r.populate(&vec![no_isbn, unknown]);
    assert!(failures.is_empty());
    assert!(r.books.book_list.is_empty());
    assert!(r.articles.article_list.is_empty());
}

#[test]
fn populate_sorts_records_in_order() {
    let mut w1 = record("w1", "webpage");
    w1.url = text("https://one");
    let mut w2 = record("w2", "blogPost");
    w2.url = text("https://two");
    let mut bad = record("w3", "webpage");
    bad.url = text("https://three");
    bad.select = None;
    let items = vec![w1, book_record(), bad, w2, youtube_record("https://www.youtube.com/watch?v=z")];
    let mut r = References::new();
    let failures = r.populate(&items);
    assert_eq!(r.articles.article_list.len(), 2);
    assert_eq!(r.articles.article_list[0].resource_details.id, "w1");
    assert_eq!(r.articles.article_list[1].resource_details.id, "w2");
    assert_eq!(r.articles.article_list[1].url, "https://two");
    assert_eq!(r.books.book_list.len(), 1);
    assert_eq!(r.youtube_videos.youtube_video_list.len(), 1);
    assert!(r.ted_talks.ted_talk_list.is_empty());
    assert!(r.academic_papers.academic_paper_list.is_empty());
    assert_eq!(failures.len(), 1);
    assert_eq!(failures[0].id, "w3");
    assert_eq!(failures[0].reason, RecordError::MissingLocalLink);
}

#[test]
fn lists_print_their_notes() {
    let mut r = References::new();
    let mut w = record("w1", "webpage");
    w.url = text("https://one");
    r.populate(&vec![book_record(), w]);
    assert_eq!(r.books.print("[{{id}}]").unwrap(), "[smith2020]");
    let all = r.print(&templates("<{{short_title}}>")).unwrap();
    assert_eq!(all, "\nAcademic Papers\n\nArticles\nA w1\nBooks\n<Systems>\nYoutube Videos\n\nTED Talks\n");
}

#[test]
fn added_resources_keep_their_order() {
    let mut r = References::new();
    let first = Book::new(&book_record()).unwrap().unwrap();
    let mut other = book_record();
    other.id = "jones2021".to_string();
    let second = Book::new(&other).unwrap().unwrap();
    r.books.add(first);
    r.books.add(second);
    assert_eq!(r.books.print("{{id}};").unwrap(), "smith2020;jones2021;");
}

#[test]
fn a_second_run_writes_the_same_notes() {
    let mut w = record("w1", "webpage");
    w.url = text("https://one");
    w.notes = vec![note("first"), note("second")];
    let items = vec![book_record(), w, youtube_record("https://www.youtube.com/watch?v=q")];
    let t = templates("{{id}} {{notes}} {{tags}}");
    let one = generate_notes(&items, &t, ".md");
    let two = generate_notes(&items, &t, ".md");
    assert_eq!(one.files.len(), 3);
    assert_eq!(one.files.len(), two.files.len());
    for (a, b) in one.files.iter().zip(two.files.iter()) {
        assert_eq!(a.folder, b.folder);
        assert_eq!(a.file_name, b.file_name);
        assert_eq!(a.content, b.content);
    }
    assert_eq!(one.files[0].folder, "Articles");
    assert_eq!(one.files[0].content, "A w1");
    assert_eq!(one.files[1].folder, "Books");
    assert_eq!(one.files[2].folder, "Youtube Videos");
    assert_eq!(one.files[2].content, "Y q SomeChannel");
}

#[test]
fn note_of_each_category_fills_its_fields() {
    let mut p = record("p1", "journalArticle");
    p.doi = text("10.1/x");
    p.published_date = text("2019");
    p.journal = text("Nature");
    p.creators = vec![person("Marie", "Curie")];
    let paper = AcademicPaper::new(&p).unwrap().unwrap();
    assert_eq!(
        paper.render("{{doi}} {{journal}} {{publish_date}}{{authors}} {{zotero_local_link}} {{zotero_cloud_link}}").unwrap(),
        "10.1/x Nature 2019\n- [[Marie Curie]] local://x cloud://x"
    );
    let mut w = record("w1", "webpage");
    w.url = text("https://one");
    let article = Article::new(&w).unwrap().unwrap();
    assert_eq!(article.render("{{url}} {{full_title}}").unwrap(), "https://one A Title");
    let video = YoutubeVideo::new(&youtube_record("https://www.youtube.com/watch?v=k")).unwrap().unwrap();
    assert_eq!(video.render("{{channel}}/{{url_query_string}}").unwrap(), "SomeChannel/k");
}
