use vstd::prelude::*;
use crate::json_parser::{
    Creator, CreatorView, Item, ItemView, Note, NoteView, Tag, copy_creators, copy_notes, copy_tags,
    creator_views, item_views, note_views, opt_view, tag_views,
};
use crate::template::{fill_template, filled, pair_views};
use crate::text::{has_prefix, join, join_text, same_text, strip_prefix, views};

verus! {

/// Why a record that belongs to a category could not be made into a note.
#[derive(PartialEq, Eq, Structural, Clone, Copy, Debug)]
pub enum RecordError {
    MissingTitle,
    MissingCloudLink,
    MissingLocalLink,
    MissingShortTitle,
    MissingPublishDate,
    MissingJournal,
    BadYoutubeUrl,
    MissingChannel,
    MissingSpeaker,
    MissingAuthorName,
}

/// The kinds of resource that records are sorted into.
#[derive(PartialEq, Eq, Structural, Clone, Copy, Debug)]
pub enum Category {
    Book,
    AcademicPaper,
    Article,
    YoutubeVideo,
    TEDTalk,
}

/// The record names `name` as its source catalog.
pub open spec fn catalog_is(i: ItemView, name: Seq<char>) -> bool {
    i.library_catalog == Some(name)
}

pub open spec fn is_book(i: ItemView) -> bool {
    i.item_type == "book"@ && i.isbn is Some
}

pub open spec fn is_academic_paper(i: ItemView) -> bool {
    i.item_type == "journalArticle"@ && i.doi is Some
}

pub open spec fn is_article(i: ItemView) -> bool {
    (i.item_type == "webpage"@ || i.item_type == "blogPost"@) && i.url is Some
}

pub open spec fn is_youtube_video(i: ItemView) -> bool {
    i.item_type == "videoRecording"@ && catalog_is(i, "YouTube"@) && i.url is Some
}

pub open spec fn is_ted_talk(i: ItemView) -> bool {
    i.item_type == "videoRecording"@ && catalog_is(i, "www.ted.com"@) && i.url is Some
}

/// The category of a record: the first whose type and fields it has, if any.
pub open spec fn category_of(i: ItemView) -> Option<Category> {
    if is_book(i) {
        Some(Category::Book)
    } else if is_academic_paper(i) {
        Some(Category::AcademicPaper)
    } else if is_article(i) {
        Some(Category::Article)
    } else if is_youtube_video(i) {
        Some(Category::YoutubeVideo)
    } else if is_ted_talk(i) {
        Some(Category::TEDTalk)
    } else {
        None
    }
}

/// No record has the type and fields of two categories, so the order in which
/// [`category_of`] tries them does not matter: a record is of a category exactly
/// when it has that category's type and fields.
pub proof fn lemma_categories_exclusive(i: ItemView)
    ensures
        !(is_book(i) && is_academic_paper(i)),
        !(is_book(i) && is_article(i)),
        !(is_book(i) && is_youtube_video(i)),
        !(is_book(i) && is_ted_talk(i)),
        !(is_academic_paper(i) && is_article(i)),
        !(is_academic_paper(i) && is_youtube_video(i)),
        !(is_academic_paper(i) && is_ted_talk(i)),
        !(is_article(i) && is_youtube_video(i)),
        !(is_article(i) && is_ted_talk(i)),
        !(is_youtube_video(i) && is_ted_talk(i)),
        category_of(i) == Some(Category::Book) <==> is_book(i),
        category_of(i) == Some(Category::AcademicPaper) <==> is_academic_paper(i),
        category_of(i) == Some(Category::Article) <==> is_article(i),
        category_of(i) == Some(Category::YoutubeVideo) <==> is_youtube_video(i),
        category_of(i) == Some(Category::TEDTalk) <==> is_ted_talk(i),
{
    reveal_strlit("book");
    reveal_strlit("journalArticle");
    reveal_strlit("webpage");
    reveal_strlit("blogPost");
    reveal_strlit("videoRecording");
    reveal_strlit("YouTube");
    reveal_strlit("www.ted.com");
    assert("book"@ != "journalArticle"@ && "book"@ != "webpage"@ && "book"@ != "blogPost"@
        && "book"@ != "videoRecording"@) by {
        assert("book"@.len() != "journalArticle"@.len());
        assert("book"@[0] != "webpage"@[0]);
        assert("book"@[1] != "blogPost"@[1]);
        assert("book"@[0] != "videoRecording"@[0]);
    }
    assert("journalArticle"@ != "webpage"@ && "journalArticle"@ != "blogPost"@
        && "journalArticle"@ != "videoRecording"@) by {
        assert("journalArticle"@[0] != "webpage"@[0]);
        assert("journalArticle"@[0] != "blogPost"@[0]);
        assert("journalArticle"@[0] != "videoRecording"@[0]);
    }
    assert("webpage"@ != "videoRecording"@ && "blogPost"@ != "videoRecording"@) by {
        assert("webpage"@[0] != "videoRecording"@[0]);
        assert("blogPost"@[0] != "videoRecording"@[0]);
    }
    assert("YouTube"@ != "www.ted.com"@) by {
        assert("YouTube"@[0] != "www.ted.com"@[0]);
    }
}

/// The record names `name` as its source catalog.
fn has_catalog(item: &Item, name: &str) -> (r: bool)
    ensures
        r == catalog_is(item@, name@),
{
    match &item.library_catalog {
        Some(c) => same_text(c.as_str(), name),
        None => false,
    }
}

fn is_type(item: &Item, name: &str) -> (r: bool)
    ensures
        r == (item@.item_type == name@),
{
    same_text(item.item_type.as_str(), name)
}

/// The category that a record belongs to, or `None` where its type is none of the
/// five or it lacks the field that its category asks for.
pub fn classify(item: &Item) -> (r: Option<Category>)
    ensures
        r == category_of(item@),
{
    if is_type(item, "book") && item.isbn.is_some() {
        Some(Category::Book)
    } else if is_type(item, "journalArticle") && item.doi.is_some() {
        Some(Category::AcademicPaper)
    } else if (is_type(item, "webpage") || is_type(item, "blogPost")) && item.url.is_some() {
        Some(Category::Article)
    } else if is_type(item, "videoRecording") && has_catalog(item, "YouTube")
        && item.url.is_some() {
        Some(Category::YoutubeVideo)
    } else if is_type(item, "videoRecording") && has_catalog(item, "www.ted.com")
        && item.url.is_some() {
        Some(Category::TEDTalk)
    } else {
        None
    }
}

/// The name under which a creator is listed: the single name where there is one,
/// else first and last name with a space between.
pub open spec fn author_name(c: CreatorView) -> Option<Seq<char>> {
    if c.name is Some {
        c.name
    } else if c.first_name is Some && c.last_name is Some {
        Some(c.first_name->0 + " "@ + c.last_name->0)
    } else {
        None
    }
}

/// One line `- [[name]]` per creator, each after a newline, separated by commas;
/// `None` where a creator has no name.
pub open spec fn author_list(cs: Seq<CreatorView>) -> Option<Seq<char>> {
    if forall|i: int| 0 <= i < cs.len() ==> (#[trigger] author_name(cs[i])) is Some {
        Some(join(cs.map_values(|c: CreatorView| "\n- [["@ + author_name(c)->0 + "]]"@), ","@))
    } else {
        None
    }
}

/// One line `- #tag` per tag, each after a newline, separated by commas.
pub open spec fn tag_list(tags: Seq<Seq<char>>) -> Seq<char> {
    join(tags.map_values(|t: Seq<char>| "\n- #"@ + t), ","@)
}

/// The note contents, last note first, each followed by a line `---`.
pub open spec fn note_list(notes: Seq<NoteView>) -> Seq<char> {
    join(notes.reverse().map_values(|n: NoteView| n.content + "\n---"@), "\n"@)
}

/// The creators as a list of links, in their order; `None` where one of them has
/// neither a single name nor a first and a last name.
pub fn display_authors(authors: &Vec<Creator>) -> (r: Option<String>)
    ensures
        opt_view(r) == author_list(creator_views(authors@)),
{
    let ghost cs = creator_views(authors@);
    let mut parts: Vec<String> = Vec::new();
    let mut i: usize = 0;
    while i < authors.len()
        invariant
            i <= authors.len(),
            cs == creator_views(authors@),
            parts.len() == i,
            forall|j: int| 0 <= j < i ==> (#[trigger] author_name(cs[j])) is Some,
            forall|j: int|
                0 <= j < i ==> (#[trigger] parts@[j])@ == "\n- [["@ + author_name(cs[j])->0
                    + "]]"@,
        decreases authors.len() - i,
    {
        let a = &authors[i];
        let mut entry = String::from_str("\n- [[");
        if let Some(n) = &a.name {
            entry.append(n.as_str());
        } else if a.first_name.is_some() && a.last_name.is_some() {
            entry.append(a.first_name.as_ref().unwrap().as_str());
            entry.append(" ");
            entry.append(a.last_name.as_ref().unwrap().as_str());
        } else {
            assert(author_name(cs[i as int]) is None);
            return None;
        }
        entry.append("]]");
        parts.push(entry);
        i = i + 1;
    }
    assert(views(parts@) =~= cs.map_values(
        |c: CreatorView| "\n- [["@ + author_name(c)->0 + "]]"@,
    ));
    Some(join_text(&parts, ","))
}

/// The tags as a list of hashtags, in their order.
pub fn display_tags(tags: &Vec<Tag>) -> (r: String)
    ensures
        r@ == tag_list(tag_views(tags@)),
{
    let mut parts: Vec<String> = Vec::new();
    let mut i: usize = 0;
    while i < tags.len()
        invariant
            i <= tags.len(),
            parts.len() == i,
            forall|j: int| 0 <= j < i ==> (#[trigger] parts@[j])@ == "\n- #"@ + tags@[j].tag@,
        decreases tags.len() - i,
    {
        let mut entry = String::from_str("\n- #");
        entry.append(tags[i].tag.as_str());
        parts.push(entry);
        i = i + 1;
    }
    assert(views(parts@) =~= tag_views(tags@).map_values(|t: Seq<char>| "\n- #"@ + t));
    join_text(&parts, ",")
}

/// The note contents, the last note first, each followed by a rule.
pub fn display_notes(notes: &Vec<Note>) -> (r: String)
    ensures
        r@ == note_list(note_views(notes@)),
{
    let n = notes.len();
    let mut parts: Vec<String> = Vec::new();
    let mut i: usize = 0;
    while i < n
        invariant
            i <= n,
            n == notes.len(),
            parts.len() == i,
            forall|j: int|
                0 <= j < i ==> (#[trigger] parts@[j])@ == notes@[n - 1 - j].content@ + "\n---"@,
        decreases n - i,
    {
        let mut entry = notes[n - 1 - i].content.clone();
        entry.append("\n---");
        parts.push(entry);
        i = i + 1;
    }
    assert(views(parts@) =~= note_views(notes@).reverse().map_values(
        |m: NoteView| m.content + "\n---"@,
    ));
    join_text(&parts, "\n")
}


/// A result with its value seen through its view.
pub open spec fn result_view<T: View>(r: Result<T, RecordError>) -> Result<T::V, RecordError> {
    match r {
        Ok(t) => Ok(t@),
        Err(e) => Err(e),
    }
}

/// The outcome of making a resource, with the resource seen through its view.
pub open spec fn made_view<T: View>(r: Result<Option<T>, RecordError>) -> Result<
    Option<T::V>,
    RecordError,
> {
    match r {
        Ok(Some(t)) => Ok(Some(t@)),
        Ok(None) => Ok(None),
        Err(e) => Err(e),
    }
}

/// What making a resource yields: nothing for a record of another category, else
/// the resource or the reason it could not be made.
pub open spec fn offered<V>(accepts: bool, built: Result<V, RecordError>) -> Result<
    Option<V>,
    RecordError,
> {
    if !accepts {
        Ok(None)
    } else {
        match built {
            Ok(v) => Ok(Some(v)),
            Err(e) => Err(e),
        }
    }
}

/// A resource made from a record of its category.
pub trait New<T: View>: Sized {
    /// The record is of this category.
    spec fn accepts(item: ItemView) -> bool;

    /// The resource that a record of this category gives, or why it gives none.
    spec fn built(item: ItemView) -> Result<T::V, RecordError>;

    fn new(item: &Item) -> (r: Result<Option<T>, RecordError>)
        ensures
            made_view(r) == offered(Self::accepts(item@), Self::built(item@)),
    ;
}

/// A resource written out as a note through a template.
pub trait Render: View + Sized {
    /// The note that a template gives for a resource, or why there is none.
    spec fn rendered(v: Self::V, template: Seq<char>) -> Result<Seq<char>, RecordError>;

    fn render(&self, template: &str) -> (r: Result<String, RecordError>)
        ensures
            result_view(r) == Self::rendered(self@, template@),
    ;

    /// The identifier of a resource, which names its note.
    spec fn key(v: Self::V) -> Seq<char>;

    fn identifier(&self) -> (r: String)
        ensures
            r@ == Self::key(self@),
    ;
}

/// What every resource has, whatever its category.
pub struct Resource {
    pub id: String,
    pub full_title: String,
    pub tags: Vec<Tag>,
    pub notes: Vec<Note>,
    pub zotero_cloud_link: String,
    pub zotero_local_link: String,
    pub creators: Vec<Creator>,
}

pub struct ResourceView {
    pub id: Seq<char>,
    pub full_title: Seq<char>,
    pub tags: Seq<Seq<char>>,
    pub notes: Seq<NoteView>,
    pub zotero_cloud_link: Seq<char>,
    pub zotero_local_link: Seq<char>,
    pub creators: Seq<CreatorView>,
}

impl View for Resource {
    type V = ResourceView;

    open spec fn view(&self) -> ResourceView {
        ResourceView {
            id: self.id@,
            full_title: self.full_title@,
            tags: tag_views(self.tags@),
            notes: note_views(self.notes@),
            zotero_cloud_link: self.zotero_cloud_link@,
            zotero_local_link: self.zotero_local_link@,
            creators: creator_views(self.creators@),
        }
    }
}

/// The common part of a resource made from a record: the title and both links
/// must be there.
pub open spec fn resource_of(i: ItemView) -> Result<ResourceView, RecordError> {
    if i.title is None {
        Err(RecordError::MissingTitle)
    } else if i.uri is None {
        Err(RecordError::MissingCloudLink)
    } else if i.select is None {
        Err(RecordError::MissingLocalLink)
    } else {
        Ok(
            ResourceView {
                id: i.id,
                full_title: i.title->0,
                tags: i.tags,
                notes: i.notes,
                zotero_cloud_link: i.uri->0,
                zotero_local_link: i.select->0,
                creators: i.creators,
            },
        )
    }
}

fn required(o: &Option<String>, e: RecordError) -> (r: Result<String, RecordError>)
    ensures
        r matches Ok(s) ==> o matches Some(v) && s@ == v@,
        r matches Err(x) ==> o is None && x == e,
{
    match o {
        Some(s) => Ok(s.clone()),
        None => Err(e),
    }
}

impl Resource {
    /// The common part of a resource made from `item`, or the first of title, cloud
    /// link and local link that it lacks.
    pub fn from_item(item: &Item) -> (r: Result<Resource, RecordError>)
        ensures
            result_view(r) == resource_of(item@),
    {
        let full_title = match required(&item.title, RecordError::MissingTitle) {
            Ok(s) => s,
            Err(e) => return Err(e),
        };
        let zotero_cloud_link = match required(&item.uri, RecordError::MissingCloudLink) {
            Ok(s) => s,
            Err(e) => return Err(e),
        };
        let zotero_local_link = match required(&item.select, RecordError::MissingLocalLink) {
            Ok(s) => s,
            Err(e) => return Err(e),
        };
        let r = Resource {
            id: item.id.clone(),
            full_title,
            tags: copy_tags(&item.tags),
            notes: copy_notes(&item.notes),
            zotero_cloud_link,
            zotero_local_link,
            creators: copy_creators(&item.creators),
        };
        assert(r@ == resource_of(item@)->Ok_0);
        Ok(r)
    }
}

/// The substitutions that every resource offers.
pub open spec fn resource_pairs(r: ResourceView) -> Seq<(Seq<char>, Seq<char>)> {
    seq![
        ("{{id}}"@, r.id),
        ("{{full_title}}"@, r.full_title),
        ("{{zotero_local_link}}"@, r.zotero_local_link),
        ("{{zotero_cloud_link}}"@, r.zotero_cloud_link),
        ("{{tags}}"@, tag_list(r.tags)),
        ("{{notes}}"@, note_list(r.notes)),
    ]
}

fn add_sub(subs: &mut Vec<(String, String)>, token: &str, value: String)
    ensures
        pair_views(final(subs)@) == pair_views(old(subs)@).push((token@, value@)),
{
    subs.push((String::from_str(token), value));
    assert(pair_views(subs@) =~= pair_views(old(subs)@).push((token@, value@)));
}

fn resource_subs(r: &Resource) -> (subs: Vec<(String, String)>)
    ensures
        pair_views(subs@) == resource_pairs(r@),
{
    let mut subs: Vec<(String, String)> = Vec::new();
    add_sub(&mut subs, "{{id}}", r.id.clone());
    add_sub(&mut subs, "{{full_title}}", r.full_title.clone());
    add_sub(&mut subs, "{{zotero_local_link}}", r.zotero_local_link.clone());
    add_sub(&mut subs, "{{zotero_cloud_link}}", r.zotero_cloud_link.clone());
    add_sub(&mut subs, "{{tags}}", display_tags(&r.tags));
    add_sub(&mut subs, "{{notes}}", display_notes(&r.notes));
    assert(pair_views(subs@) =~= resource_pairs(r@));
    subs
}

pub struct Book {
    pub resource_details: Resource,
    pub isbn_13: String,
    pub short_title: String,
    pub publish_date: String,
}

pub struct BookView {
    pub resource_details: ResourceView,
    pub isbn_13: Seq<char>,
    pub short_title: Seq<char>,
    pub publish_date: Seq<char>,
}

impl View for Book {
    type V = BookView;

    open spec fn view(&self) -> BookView {
        BookView {
            resource_details: self.resource_details@,
            isbn_13: self.isbn_13@,
            short_title: self.short_title@,
            publish_date: self.publish_date@,
        }
    }
}

/// A book made from a record: it needs a short title and a publication date.
pub open spec fn book_of(i: ItemView) -> Result<BookView, RecordError> {
    match resource_of(i) {
        Err(e) => Err(e),
        Ok(r) => if i.short_title is None {
            Err(RecordError::MissingShortTitle)
        } else if i.published_date is None {
            Err(RecordError::MissingPublishDate)
        } else {
            Ok(
                BookView {
                    resource_details: r,
                    isbn_13: i.isbn->0,
                    short_title: i.short_title->0,
                    publish_date: i.published_date->0,
                },
            )
        },
    }
}

/// The note of a book.
pub open spec fn book_note(b: BookView, t: Seq<char>) -> Result<Seq<char>, RecordError> {
    match author_list(b.resource_details.creators) {
        None => Err(RecordError::MissingAuthorName),
        Some(authors) => Ok(
            filled(
                t,
                resource_pairs(b.resource_details) + seq![
                    ("{{authors}}"@, authors),
                    ("{{short_title}}"@, b.short_title),
                    ("{{publish_date}}"@, b.publish_date),
                    ("{{isbn_13}}"@, b.isbn_13),
                ],
            ),
        ),
    }
}

impl New<Book> for Book {
    open spec fn accepts(item: ItemView) -> bool {
        is_book(item)
    }

    open spec fn built(item: ItemView) -> Result<BookView, RecordError> {
        book_of(item)
    }

    fn new(item: &Item) -> (r: Result<Option<Book>, RecordError>) {
        if !(is_type(item, "book") && item.isbn.is_some()) {
            return Ok(None);
        }
        let resource_details = match Resource::from_item(item) {
            Ok(r) => r,
            Err(e) => return Err(e),
        };
        let short_title = match required(&item.short_title, RecordError::MissingShortTitle) {
            Ok(s) => s,
            Err(e) => return Err(e),
        };
        let publish_date = match required(&item.published_date, RecordError::MissingPublishDate) {
            Ok(s) => s,
            Err(e) => return Err(e),
        };
        let isbn_13 = item.isbn.as_ref().unwrap().clone();
        Ok(Some(Book { resource_details, isbn_13, short_title, publish_date }))
    }
}

impl Render for Book {
    open spec fn key(v: BookView) -> Seq<char> {
        v.resource_details.id
    }

    fn identifier(&self) -> (r: String) {
        self.resource_details.id.clone()
    }

    open spec fn rendered(v: BookView, template: Seq<char>) -> Result<Seq<char>, RecordError> {
        book_note(v, template)
    }

    fn render(&self, template: &str) -> (r: Result<String, RecordError>) {
        let authors = match display_authors(&self.resource_details.creators) {
            Some(a) => a,
            None => return Err(RecordError::MissingAuthorName),
        };
        let mut subs = resource_subs(&self.resource_details);
        add_sub(&mut subs, "{{authors}}", authors);
        add_sub(&mut subs, "{{short_title}}", self.short_title.clone());
        add_sub(&mut subs, "{{publish_date}}", self.publish_date.clone());
        add_sub(&mut subs, "{{isbn_13}}", self.isbn_13.clone());
        proof {
            let v = self@;
            assert(pair_views(subs@) =~= resource_pairs(v.resource_details) + seq![
                ("{{authors}}"@, author_list(v.resource_details.creators)->0),
                ("{{short_title}}"@, v.short_title),
                ("{{publish_date}}"@, v.publish_date),
                ("{{isbn_13}}"@, v.isbn_13),
            ]);
        }
        Ok(fill_template(template, &subs))
    }
}

pub struct Article {
    pub resource_details: Resource,
    pub url: String,
}

pub struct ArticleView {
    pub resource_details: ResourceView,
    pub url: Seq<char>,
}

impl View for Article {
    type V = ArticleView;

    open spec fn view(&self) -> ArticleView {
        ArticleView { resource_details: self.resource_details@, url: self.url@ }
    }
}

/// An article made from a record.
pub open spec fn article_of(i: ItemView) -> Result<ArticleView, RecordError> {
    match resource_of(i) {
        Err(e) => Err(e),
        Ok(r) => Ok(ArticleView { resource_details: r, url: i.url->0 }),
    }
}

/// The note of an article.
pub open spec fn article_note(a: ArticleView, t: Seq<char>) -> Result<Seq<char>, RecordError> {
    match author_list(a.resource_details.creators) {
        None => Err(RecordError::MissingAuthorName),
        Some(authors) => Ok(
            filled(
                t,
                resource_pairs(a.resource_details) + seq![
                    ("{{authors}}"@, authors),
                    ("{{url}}"@, a.url),
                ],
            ),
        ),
    }
}

impl New<Article> for Article {
    open spec fn accepts(item: ItemView) -> bool {
        is_article(item)
    }

    open spec fn built(item: ItemView) -> Result<ArticleView, RecordError> {
        article_of(item)
    }

    fn new(item: &Item) -> (r: Result<Option<Article>, RecordError>) {
        if !((is_type(item, "webpage") || is_type(item, "blogPost")) && item.url.is_some()) {
            return Ok(None);
        }
        let resource_details = match Resource::from_item(item) {
            Ok(r) => r,
            Err(e) => return Err(e),
        };
        let url = item.url.as_ref().unwrap().clone();
        Ok(Some(Article { resource_details, url }))
    }
}

impl Render for Article {
    open spec fn key(v: ArticleView) -> Seq<char> {
        v.resource_details.id
    }

    fn identifier(&self) -> (r: String) {
        self.resource_details.id.clone()
    }

    open spec fn rendered(v: ArticleView, template: Seq<char>) -> Result<Seq<char>, RecordError> {
        article_note(v, template)
    }

    fn render(&self, template: &str) -> (r: Result<String, RecordError>) {
        let authors = match display_authors(&self.resource_details.creators) {
            Some(a) => a,
            None => return Err(RecordError::MissingAuthorName),
        };
        let mut subs = resource_subs(&self.resource_details);
        add_sub(&mut subs, "{{authors}}", authors);
        add_sub(&mut subs, "{{url}}", self.url.clone());
        proof {
            let v = self@;
            assert(pair_views(subs@) =~= resource_pairs(v.resource_details) + seq![
                ("{{authors}}"@, author_list(v.resource_details.creators)->0),
                ("{{url}}"@, v.url),
            ]);
        }
        Ok(fill_template(template, &subs))
    }
}

pub struct AcademicPaper {
    pub resource_details: Resource,
    pub doi: String,
    pub journal: String,
    pub publish_date: String,
}

pub struct AcademicPaperView {
    pub resource_details: ResourceView,
    pub doi: Seq<char>,
    pub journal: Seq<char>,
    pub publish_date: Seq<char>,
}

impl View for AcademicPaper {
    type V = AcademicPaperView;

    open spec fn view(&self) -> AcademicPaperView {
        AcademicPaperView {
            resource_details: self.resource_details@,
            doi: self.doi@,
            journal: self.journal@,
            publish_date: self.publish_date@,
        }
    }
}

/// An academic paper made from a record: it needs a publication date and a journal.
pub open spec fn academic_paper_of(i: ItemView) -> Result<AcademicPaperView, RecordError> {
    match resource_of(i) {
        Err(e) => Err(e),
        Ok(r) => if i.published_date is None {
            Err(RecordError::MissingPublishDate)
        } else if i.journal is None {
            Err(RecordError::MissingJournal)
        } else {
            Ok(
                AcademicPaperView {
                    resource_details: r,
                    doi: i.doi->0,
                    journal: i.journal->0,
                    publish_date: i.published_date->0,
                },
            )
        },
    }
}

/// The note of an academic paper.
pub open spec fn academic_paper_note(p: AcademicPaperView, t: Seq<char>) -> Result<
    Seq<char>,
    RecordError,
> {
    match author_list(p.resource_details.creators) {
        None => Err(RecordError::MissingAuthorName),
        Some(authors) => Ok(
            filled(
                t,
                resource_pairs(p.resource_details) + seq![
                    ("{{authors}}"@, authors),
                    ("{{doi}}"@, p.doi),
                    ("{{publish_date}}"@, p.publish_date),
                    ("{{journal}}"@, p.journal),
                ],
            ),
        ),
    }
}

impl New<AcademicPaper> for AcademicPaper {
    open spec fn accepts(item: ItemView) -> bool {
        is_academic_paper(item)
    }

    open spec fn built(item: ItemView) -> Result<AcademicPaperView, RecordError> {
        academic_paper_of(item)
    }

    fn new(item: &Item) -> (r: Result<Option<AcademicPaper>, RecordError>) {
        if !(is_type(item, "journalArticle") && item.doi.is_some()) {
            return Ok(None);
        }
        let resource_details = match Resource::from_item(item) {
            Ok(r) => r,
            Err(e) => return Err(e),
        };
        let publish_date = match required(&item.published_date, RecordError::MissingPublishDate) {
            Ok(s) => s,
            Err(e) => return Err(e),
        };
        let journal = match required(&item.journal, RecordError::MissingJournal) {
            Ok(s) => s,
            Err(e) => return Err(e),
        };
        let doi = item.doi.as_ref().unwrap().clone();
        Ok(Some(AcademicPaper { resource_details, doi, journal, publish_date }))
    }
}

impl Render for AcademicPaper {
    open spec fn key(v: AcademicPaperView) -> Seq<char> {
        v.resource_details.id
    }

    fn identifier(&self) -> (r: String) {
        self.resource_details.id.clone()
    }

    open spec fn rendered(v: AcademicPaperView, template: Seq<char>) -> Result<
        Seq<char>,
        RecordError,
    > {
        academic_paper_note(v, template)
    }

    fn render(&self, template: &str) -> (r: Result<String, RecordError>) {
        let authors = match display_authors(&self.resource_details.creators) {
            Some(a) => a,
            None => return Err(RecordError::MissingAuthorName),
        };
        let mut subs = resource_subs(&self.resource_details);
        add_sub(&mut subs, "{{authors}}", authors);
        add_sub(&mut subs, "{{doi}}", self.doi.clone());
        add_sub(&mut subs, "{{publish_date}}", self.publish_date.clone());
        add_sub(&mut subs, "{{journal}}", self.journal.clone());
        proof {
            let v = self@;
            assert(pair_views(subs@) =~= resource_pairs(v.resource_details) + seq![
                ("{{authors}}"@, author_list(v.resource_details.creators)->0),
                ("{{doi}}"@, v.doi),
                ("{{publish_date}}"@, v.publish_date),
                ("{{journal}}"@, v.journal),
            ]);
        }
        Ok(fill_template(template, &subs))
    }
}

/// The front that the address of every YouTube video shares.
pub open spec fn youtube_prefix() -> Seq<char> {
    "https://www.youtube.com/watch?v="@
}

/// What follows the YouTube front in `url`, or `None` where `url` does not begin
/// with it.
pub fn get_youtube_query_string(url: &str) -> (r: Option<String>)
    ensures
        opt_view(r) == (if has_prefix(url@, youtube_prefix()) {
            Some(url@.skip(youtube_prefix().len() as int))
        } else {
            None
        }),
{
    strip_prefix(url, "https://www.youtube.com/watch?v=")
}

pub struct YoutubeVideo {
    pub resource_details: Resource,
    pub url_query_string: String,
    pub channel: String,
}

pub struct YoutubeVideoView {
    pub resource_details: ResourceView,
    pub url_query_string: Seq<char>,
    pub channel: Seq<char>,
}

impl View for YoutubeVideo {
    type V = YoutubeVideoView;

    open spec fn view(&self) -> YoutubeVideoView {
        YoutubeVideoView {
            resource_details: self.resource_details@,
            url_query_string: self.url_query_string@,
            channel: self.channel@,
        }
    }
}

/// A YouTube video made from a record: its address must begin with the YouTube
/// front, and its first creator, the channel, must have a single name.
pub open spec fn youtube_video_of(i: ItemView) -> Result<YoutubeVideoView, RecordError> {
    match resource_of(i) {
        Err(e) => Err(e),
        Ok(r) => if !has_prefix(i.url->0, youtube_prefix()) {
            Err(RecordError::BadYoutubeUrl)
        } else if i.creators.len() == 0 || i.creators[0].name is None {
            Err(RecordError::MissingChannel)
        } else {
            Ok(
                YoutubeVideoView {
                    resource_details: r,
                    url_query_string: i.url->0.skip(youtube_prefix().len() as int),
                    channel: i.creators[0].name->0,
                },
            )
        },
    }
}

/// The note of a YouTube video.
pub open spec fn youtube_video_note(y: YoutubeVideoView, t: Seq<char>) -> Seq<char> {
    filled(
        t,
        resource_pairs(y.resource_details) + seq![
            ("{{channel}}"@, y.channel),
            ("{{url_query_string}}"@, y.url_query_string),
        ],
    )
}

impl New<YoutubeVideo> for YoutubeVideo {
    open spec fn accepts(item: ItemView) -> bool {
        is_youtube_video(item)
    }

    open spec fn built(item: ItemView) -> Result<YoutubeVideoView, RecordError> {
        youtube_video_of(item)
    }

    fn new(item: &Item) -> (r: Result<Option<YoutubeVideo>, RecordError>) {
        if !(is_type(item, "videoRecording") && has_catalog(item, "YouTube")
            && item.url.is_some()) {
            return Ok(None);
        }
        let resource_details = match Resource::from_item(item) {
            Ok(r) => r,
            Err(e) => return Err(e),
        };
        let url_query_string = match get_youtube_query_string(
            item.url.as_ref().unwrap().as_str(),
        ) {
            Some(q) => q,
            None => return Err(RecordError::BadYoutubeUrl),
        };
        if item.creators.len() == 0 {
            return Err(RecordError::MissingChannel);
        }
        let channel = match required(&item.creators[0].name, RecordError::MissingChannel) {
            Ok(s) => s,
            Err(e) => return Err(e),
        };
        Ok(Some(YoutubeVideo { resource_details, url_query_string, channel }))
    }
}

impl Render for YoutubeVideo {
    open spec fn key(v: YoutubeVideoView) -> Seq<char> {
        v.resource_details.id
    }

    fn identifier(&self) -> (r: String) {
        self.resource_details.id.clone()
    }

    open spec fn rendered(v: YoutubeVideoView, template: Seq<char>) -> Result<
        Seq<char>,
        RecordError,
    > {
        Ok(youtube_video_note(v, template))
    }

    fn render(&self, template: &str) -> (r: Result<String, RecordError>) {
        let mut subs = resource_subs(&self.resource_details);
        add_sub(&mut subs, "{{channel}}", self.channel.clone());
        add_sub(&mut subs, "{{url_query_string}}", self.url_query_string.clone());
        proof {
            let v = self@;
            assert(pair_views(subs@) =~= resource_pairs(v.resource_details) + seq![
                ("{{channel}}"@, v.channel),
                ("{{url_query_string}}"@, v.url_query_string),
            ]);
        }
        Ok(fill_template(template, &subs))
    }
}

pub struct TEDTalk {
    pub resource_details: Resource,
    pub url: String,
    pub speaker: String,
}

pub struct TEDTalkView {
    pub resource_details: ResourceView,
    pub url: Seq<char>,
    pub speaker: Seq<char>,
}

impl View for TEDTalk {
    type V = TEDTalkView;

    open spec fn view(&self) -> TEDTalkView {
        TEDTalkView {
            resource_details: self.resource_details@,
            url: self.url@,
            speaker: self.speaker@,
        }
    }
}

/// A TED talk made from a record: its first creator, the speaker, must have a
/// first and a last name.
pub open spec fn ted_talk_of(i: ItemView) -> Result<TEDTalkView, RecordError> {
    match resource_of(i) {
        Err(e) => Err(e),
        Ok(r) => if i.creators.len() == 0 || i.creators[0].first_name is None
            || i.creators[0].last_name is None {
            Err(RecordError::MissingSpeaker)
        } else {
            Ok(
                TEDTalkView {
                    resource_details: r,
                    url: i.url->0,
                    speaker: i.creators[0].first_name->0 + " "@ + i.creators[0].last_name->0,
                },
            )
        },
    }
}

/// The note of a TED talk; the speaker is written as a link.
pub open spec fn ted_talk_note(v: TEDTalkView, t: Seq<char>) -> Seq<char> {
    filled(
        t,
        resource_pairs(v.resource_details) + seq![
            ("{{speaker}}"@, "[["@ + v.speaker + "]]"@),
            ("{{url}}"@, v.url),
        ],
    )
}

impl New<TEDTalk> for TEDTalk {
    open spec fn accepts(item: ItemView) -> bool {
        is_ted_talk(item)
    }

    open spec fn built(item: ItemView) -> Result<TEDTalkView, RecordError> {
        ted_talk_of(item)
    }

    fn new(item: &Item) -> (r: Result<Option<TEDTalk>, RecordError>) {
        if !(is_type(item, "videoRecording") && has_catalog(item, "www.ted.com")
            && item.url.is_some()) {
            return Ok(None);
        }
        let resource_details = match Resource::from_item(item) {
            Ok(r) => r,
            Err(e) => return Err(e),
        };
        if item.creators.len() == 0 {
            return Err(RecordError::MissingSpeaker);
        }
        let first = &item.creators[0];
        let mut speaker = match required(&first.first_name, RecordError::MissingSpeaker) {
            Ok(s) => s,
            Err(e) => return Err(e),
        };
        let last = match required(&first.last_name, RecordError::MissingSpeaker) {
            Ok(s) => s,
            Err(e) => return Err(e),
        };
        speaker.append(" ");
        speaker.append(last.as_str());
        let url = item.url.as_ref().unwrap().clone();
        Ok(Some(TEDTalk { resource_details, url, speaker }))
    }
}

impl Render for TEDTalk {
    open spec fn key(v: TEDTalkView) -> Seq<char> {
        v.resource_details.id
    }

    fn identifier(&self) -> (r: String) {
        self.resource_details.id.clone()
    }

    open spec fn rendered(v: TEDTalkView, template: Seq<char>) -> Result<Seq<char>, RecordError> {
        Ok(ted_talk_note(v, template))
    }

    fn render(&self, template: &str) -> (r: Result<String, RecordError>) {
        let mut subs = resource_subs(&self.resource_details);
        let mut speaker = String::from_str("[[");
        speaker.append(self.speaker.as_str());
        speaker.append("]]");
        add_sub(&mut subs, "{{speaker}}", speaker);
        add_sub(&mut subs, "{{url}}", self.url.clone());
        proof {
            let v = self@;
            assert(pair_views(subs@) =~= resource_pairs(v.resource_details) + seq![
                ("{{speaker}}"@, "[["@ + v.speaker + "]]"@),
                ("{{url}}"@, v.url),
            ]);
        }
        Ok(fill_template(template, &subs))
    }
}

/// The views of a list of resources.
pub open spec fn views_of<T: View>(s: Seq<T>) -> Seq<T::V> {
    s.map_values(|x: T| x@)
}

/// The notes of a list of resources laid end to end, or the failure of the first
/// that has none.
pub open spec fn listing<T: Render>(vs: Seq<T::V>, template: Seq<char>) -> Result<
    Seq<char>,
    RecordError,
>
    decreases vs.len(),
{
    if vs.len() == 0 {
        Ok(Seq::empty())
    } else {
        match listing::<T>(vs.drop_last(), template) {
            Err(e) => Err(e),
            Ok(s) => match T::rendered(vs.last(), template) {
                Ok(n) => Ok(s + n),
                Err(e) => Err(e),
            },
        }
    }
}

fn print_all<T: Render>(list: &Vec<T>, template: &str) -> (r: Result<String, RecordError>)
    ensures
        result_view(r) == listing::<T>(views_of(list@), template@),
{
    let mut output = String::new();
    let mut i: usize = 0;
    while i < list.len()
        invariant
            i <= list.len(),
            listing::<T>(views_of(list@.take(i as int)), template@) == Ok::<
                Seq<char>,
                RecordError,
            >(output@),
        decreases list.len() - i,
    {
        assert(views_of(list@.take(i + 1)).drop_last() =~= views_of(list@.take(i as int)));
        match list[i].render(template) {
            Ok(note) => output.append(note.as_str()),
            Err(e) => {
                proof {
                    lemma_listing_fails_on::<T>(views_of(list@), template@, i as int + 1);
                    assert(views_of(list@).take(i + 1) =~= views_of(list@.take(i + 1)));
                }
                return Err(e);
            },
        }
        i = i + 1;
    }
    assert(list@.take(i as int) =~= list@);
    Ok(output)
}

proof fn lemma_listing_fails_on<T: Render>(vs: Seq<T::V>, template: Seq<char>, k: int)
    requires
        0 < k <= vs.len(),
        listing::<T>(vs.take(k), template) is Err,
    ensures
        listing::<T>(vs, template) == listing::<T>(vs.take(k), template),
    decreases vs.len() - k,
{
    if k < vs.len() {
        assert(vs.take(k + 1).drop_last() =~= vs.take(k));
        lemma_listing_fails_on::<T>(vs, template, k + 1);
    } else {
        assert(vs.take(k) =~= vs);
    }
}

/// The resources of one category, in the order they were added.
pub trait ResourceList<T: Render> {
    spec fn entries(&self) -> Seq<T::V>;

    fn add(&mut self, resource: T)
        ensures
            final(self).entries() == old(self).entries().push(resource@),
    ;

    /// The notes of all the resources laid end to end.
    fn print(&self, template: &str) -> (r: Result<String, RecordError>)
        ensures
            result_view(r) == listing::<T>(self.entries(), template@),
    ;
}

pub struct Books {
    pub book_list: Vec<Book>,
}

impl ResourceList<Book> for Books {
    open spec fn entries(&self) -> Seq<BookView> {
        views_of(self.book_list@)
    }

    fn add(&mut self, book: Book) {
        self.book_list.push(book);
        assert(self.entries() =~= old(self).entries().push(book@));
    }

    fn print(&self, template: &str) -> (r: Result<String, RecordError>) {
        print_all(&self.book_list, template)
    }
}

pub struct Articles {
    pub article_list: Vec<Article>,
}

impl ResourceList<Article> for Articles {
    open spec fn entries(&self) -> Seq<ArticleView> {
        views_of(self.article_list@)
    }

    fn add(&mut self, article: Article) {
        self.article_list.push(article);
        assert(self.entries() =~= old(self).entries().push(article@));
    }

    fn print(&self, template: &str) -> (r: Result<String, RecordError>) {
        print_all(&self.article_list, template)
    }
}

pub struct AcademicPapers {
    pub academic_paper_list: Vec<AcademicPaper>,
}

impl ResourceList<AcademicPaper> for AcademicPapers {
    open spec fn entries(&self) -> Seq<AcademicPaperView> {
        views_of(self.academic_paper_list@)
    }

    fn add(&mut self, academic_paper: AcademicPaper) {
        self.academic_paper_list.push(academic_paper);
        assert(self.entries() =~= old(self).entries().push(academic_paper@));
    }

    fn print(&self, template: &str) -> (r: Result<String, RecordError>) {
        print_all(&self.academic_paper_list, template)
    }
}

pub struct YoutubeVideos {
    pub youtube_video_list: Vec<YoutubeVideo>,
}

impl ResourceList<YoutubeVideo> for YoutubeVideos {
    open spec fn entries(&self) -> Seq<YoutubeVideoView> {
        views_of(self.youtube_video_list@)
    }

    fn add(&mut self, youtube_video: YoutubeVideo) {
        self.youtube_video_list.push(youtube_video);
        assert(self.entries() =~= old(self).entries().push(youtube_video@));
    }

    fn print(&self, template: &str) -> (r: Result<String, RecordError>) {
        print_all(&self.youtube_video_list, template)
    }
}

pub struct TEDTalks {
    pub ted_talk_list: Vec<TEDTalk>,
}

impl ResourceList<TEDTalk> for TEDTalks {
    open spec fn entries(&self) -> Seq<TEDTalkView> {
        views_of(self.ted_talk_list@)
    }

    fn add(&mut self, ted_talk: TEDTalk) {
        self.ted_talk_list.push(ted_talk);
        assert(self.entries() =~= old(self).entries().push(ted_talk@));
    }

    fn print(&self, template: &str) -> (r: Result<String, RecordError>) {
        print_all(&self.ted_talk_list, template)
    }
}

pub struct Person {}

pub struct Quote {}

/// A record that belongs to a category but could not be made into a note, and why.
pub struct RecordFailure {
    pub id: String,
    pub reason: RecordError,
}

/// The identifier and reason of each failure.
pub open spec fn failure_views(fs: Seq<RecordFailure>) -> Seq<(Seq<char>, RecordError)> {
    fs.map_values(|f: RecordFailure| (f.id@, f.reason))
}

/// The resources of one category that a list of records gives, in record order.
pub open spec fn made_from<T: View, N: New<T>>(items: Seq<ItemView>) -> Seq<T::V>
    decreases items.len(),
{
    if items.len() == 0 {
        Seq::empty()
    } else {
        let rest = made_from::<T, N>(items.drop_last());
        let i = items.last();
        if N::accepts(i) && N::built(i) is Ok {
            rest.push(N::built(i)->Ok_0)
        } else {
            rest
        }
    }
}

/// The failure of a result, if it is one.
pub open spec fn err_of<V>(r: Result<V, RecordError>) -> Option<RecordError> {
    match r {
        Ok(_) => None,
        Err(e) => Some(e),
    }
}

/// Why a record of some category gives no resource; `None` where it gives one or
/// is of no category.
pub open spec fn record_error(i: ItemView) -> Option<RecordError> {
    match category_of(i) {
        Some(Category::Book) => err_of(book_of(i)),
        Some(Category::AcademicPaper) => err_of(academic_paper_of(i)),
        Some(Category::Article) => err_of(article_of(i)),
        Some(Category::YoutubeVideo) => err_of(youtube_video_of(i)),
        Some(Category::TEDTalk) => err_of(ted_talk_of(i)),
        None => None,
    }
}

/// The records that belong to a category and still give no resource, in record
/// order, each with its reason.
pub open spec fn failures_from(items: Seq<ItemView>) -> Seq<(Seq<char>, RecordError)>
    decreases items.len(),
{
    if items.len() == 0 {
        Seq::empty()
    } else {
        let rest = failures_from(items.drop_last());
        match record_error(items.last()) {
            Some(e) => rest.push((items.last().id, e)),
            None => rest,
        }
    }
}

proof fn lemma_made_from_push<T: View, N: New<T>>(items: Seq<ItemView>, i: ItemView)
    ensures
        made_from::<T, N>(items.push(i)) == (if N::accepts(i) && N::built(i) is Ok {
            made_from::<T, N>(items).push(N::built(i)->Ok_0)
        } else {
            made_from::<T, N>(items)
        }),
{
    assert(items.push(i).drop_last() =~= items);
}

proof fn lemma_failures_from_push(items: Seq<ItemView>, i: ItemView)
    ensures
        failures_from(items.push(i)) == (match record_error(i) {
            Some(e) => failures_from(items).push((i.id, e)),
            None => failures_from(items),
        }),
{
    assert(items.push(i).drop_last() =~= items);
}

/// The five lists of resources.
pub struct References {
    pub articles: Articles,
    pub books: Books,
    pub academic_papers: AcademicPapers,
    pub youtube_videos: YoutubeVideos,
    pub ted_talks: TEDTalks,
}

#[verifier::ext_equal]
pub struct ReferencesView {
    pub articles: Seq<ArticleView>,
    pub books: Seq<BookView>,
    pub academic_papers: Seq<AcademicPaperView>,
    pub youtube_videos: Seq<YoutubeVideoView>,
    pub ted_talks: Seq<TEDTalkView>,
}

impl View for References {
    type V = ReferencesView;

    open spec fn view(&self) -> ReferencesView {
        ReferencesView {
            articles: self.articles.entries(),
            books: self.books.entries(),
            academic_papers: self.academic_papers.entries(),
            youtube_videos: self.youtube_videos.entries(),
            ted_talks: self.ted_talks.entries(),
        }
    }
}

/// Five empty lists.
pub open spec fn no_references() -> ReferencesView {
    ReferencesView {
        articles: Seq::empty(),
        books: Seq::empty(),
        academic_papers: Seq::empty(),
        youtube_videos: Seq::empty(),
        ted_talks: Seq::empty(),
    }
}

/// The lists after the resources that `items` give are added to them.
pub open spec fn populated(refs: ReferencesView, items: Seq<ItemView>) -> ReferencesView {
    ReferencesView {
        articles: refs.articles + made_from::<Article, Article>(items),
        books: refs.books + made_from::<Book, Book>(items),
        academic_papers: refs.academic_papers + made_from::<AcademicPaper, AcademicPaper>(items),
        youtube_videos: refs.youtube_videos + made_from::<YoutubeVideo, YoutubeVideo>(items),
        ted_talks: refs.ted_talks + made_from::<TEDTalk, TEDTalk>(items),
    }
}

/// One template per category.
pub struct Templates {
    pub article: String,
    pub academic_paper: String,
    pub book: String,
    pub ted_talk: String,
    pub youtube_video: String,
}

pub struct TemplatesView {
    pub article: Seq<char>,
    pub academic_paper: Seq<char>,
    pub book: Seq<char>,
    pub ted_talk: Seq<char>,
    pub youtube_video: Seq<char>,
}

impl View for Templates {
    type V = TemplatesView;

    open spec fn view(&self) -> TemplatesView {
        TemplatesView {
            article: self.article@,
            academic_paper: self.academic_paper@,
            book: self.book@,
            ted_talk: self.ted_talk@,
            youtube_video: self.youtube_video@,
        }
    }
}

/// Every list under its heading, or the first failure to render a note.
pub open spec fn references_listing(r: ReferencesView, t: TemplatesView) -> Result<
    Seq<char>,
    RecordError,
> {
    match listing::<AcademicPaper>(r.academic_papers, t.academic_paper) {
        Err(e) => Err(e),
        Ok(papers) => match listing::<Article>(r.articles, t.article) {
            Err(e) => Err(e),
            Ok(articles) => match listing::<Book>(r.books, t.book) {
                Err(e) => Err(e),
                Ok(books) => match listing::<YoutubeVideo>(r.youtube_videos, t.youtube_video) {
                    Err(e) => Err(e),
                    Ok(videos) => match listing::<TEDTalk>(r.ted_talks, t.ted_talk) {
                        Err(e) => Err(e),
                        Ok(talks) => Ok(
                            "\nAcademic Papers\n"@ + papers + "\nArticles\n"@ + articles
                                + "\nBooks\n"@ + books + "\nYoutube Videos\n"@ + videos
                                + "\nTED Talks\n"@ + talks,
                        ),
                    },
                },
            },
        },
    }
}

/// Sorting records into the lists, and showing the lists.
pub trait ReferenceList {
    fn populate(&mut self, items: &Vec<Item>) -> Vec<RecordFailure>;

    fn print(&self, templates: &Templates) -> Result<String, RecordError>;

    fn new() -> References;
}

impl ReferenceList for References {
    /// Adds the resource that each record gives to the list of its category, in
    /// record order; records of no category are passed over, and those of a
    /// category that give no resource are returned, with the reason.
    fn populate(&mut self, items: &Vec<Item>) -> (r: Vec<RecordFailure>)
        ensures
            final(self)@ == populated(old(self)@, item_views(items@)),
            failure_views(r@) == failures_from(item_views(items@)),
    {
        let ghost start = self@;
        let mut failures: Vec<RecordFailure> = Vec::new();
        let mut i: usize = 0;
        assert(item_views(items@.take(0)) =~= Seq::<ItemView>::empty());
        assert(populated(start, Seq::empty()) =~= start);
        while i < items.len()
            invariant
                i <= items.len(),
                self@ == populated(start, item_views(items@.take(i as int))),
                failure_views(failures@) == failures_from(item_views(items@.take(i as int))),
            decreases items.len() - i,
        {
            let item = &items[i];
            let ghost before = item_views(items@.take(i as int));
            proof {
                assert(item_views(items@.take(i + 1)) =~= before.push(item@));
                lemma_categories_exclusive(item@);
                lemma_made_from_push::<Article, Article>(before, item@);
                lemma_made_from_push::<Book, Book>(before, item@);
                lemma_made_from_push::<AcademicPaper, AcademicPaper>(before, item@);
                lemma_made_from_push::<YoutubeVideo, YoutubeVideo>(before, item@);
                lemma_made_from_push::<TEDTalk, TEDTalk>(before, item@);
                lemma_failures_from_push(before, item@);
            }
            let ghost failed = failures@;
            match classify(item) {
                Some(Category::Book) => match Book::new(item) {
                    Ok(Some(b)) => self.books.add(b),
                    Ok(None) => {},
                    Err(e) => failures.push(RecordFailure { id: item.id.clone(), reason: e }),
                },
                Some(Category::AcademicPaper) => match AcademicPaper::new(item) {
                    Ok(Some(p)) => self.academic_papers.add(p),
                    Ok(None) => {},
                    Err(e) => failures.push(RecordFailure { id: item.id.clone(), reason: e }),
                },
                Some(Category::Article) => match Article::new(item) {
                    Ok(Some(a)) => self.articles.add(a),
                    Ok(None) => {},
                    Err(e) => failures.push(RecordFailure { id: item.id.clone(), reason: e }),
                },
                Some(Category::YoutubeVideo) => match YoutubeVideo::new(item) {
                    Ok(Some(v)) => self.youtube_videos.add(v),
                    Ok(None) => {},
                    Err(e) => failures.push(RecordFailure { id: item.id.clone(), reason: e }),
                },
                Some(Category::TEDTalk) => match TEDTalk::new(item) {
                    Ok(Some(t)) => self.ted_talks.add(t),
                    Ok(None) => {},
                    Err(e) => failures.push(RecordFailure { id: item.id.clone(), reason: e }),
                },
                None => {},
            }
            proof {
                assert(failure_views(failures@) =~= failures_from(before.push(item@)));
                assert(self@ =~= populated(start, before.push(item@)));
            }
            i = i + 1;
        }
        assert(items@.take(i as int) =~= items@);
        failures
    }

    /// Every list under its heading, academic papers, articles, books, YouTube
    /// videos and TED talks in turn, or the first failure to render a note.
    fn print(&self, templates: &Templates) -> (r: Result<String, RecordError>)
        ensures
            result_view(r) == references_listing(self@, templates@),
    {
        let papers = match self.academic_papers.print(templates.academic_paper.as_str()) {
            Ok(s) => s,
            Err(e) => return Err(e),
        };
        let articles = match self.articles.print(templates.article.as_str()) {
            Ok(s) => s,
            Err(e) => return Err(e),
        };
        let books = match self.books.print(templates.book.as_str()) {
            Ok(s) => s,
            Err(e) => return Err(e),
        };
        let videos = match self.youtube_videos.print(templates.youtube_video.as_str()) {
            Ok(s) => s,
            Err(e) => return Err(e),
        };
        let talks = match self.ted_talks.print(templates.ted_talk.as_str()) {
            Ok(s) => s,
            Err(e) => return Err(e),
        };
        let mut output = String::from_str("\nAcademic Papers\n");
        output.append(papers.as_str());
        output.append("\nArticles\n");
        output.append(articles.as_str());
        output.append("\nBooks\n");
        output.append(books.as_str());
        output.append("\nYoutube Videos\n");
        output.append(videos.as_str());
        output.append("\nTED Talks\n");
        output.append(talks.as_str());
        Ok(output)
    }

    /// Five empty lists.
    fn new() -> (r: References)
        ensures
            r@ == no_references(),
    {
        let r = References {
            articles: Articles { article_list: Vec::new() },
            books: Books { book_list: Vec::new() },
            academic_papers: AcademicPapers { academic_paper_list: Vec::new() },
            youtube_videos: YoutubeVideos { youtube_video_list: Vec::new() },
            ted_talks: TEDTalks { ted_talk_list: Vec::new() },
        };
        assert(r@ =~= no_references());
        r
    }
}

/// A note to be written: the folder of its category, its file name and its text.
pub struct NoteFile {
    pub folder: String,
    pub file_name: String,
    pub content: String,
}

/// Folder, file name and text of each note.
pub open spec fn file_views(fs: Seq<NoteFile>) -> Seq<(Seq<char>, Seq<char>, Seq<char>)> {
    fs.map_values(|f: NoteFile| (f.folder@, f.file_name@, f.content@))
}

/// The notes of a list of resources that render, in list order: each in `folder`,
/// named by the resource's identifier followed by `extension`.
pub open spec fn written<T: Render>(
    vs: Seq<T::V>,
    folder: Seq<char>,
    extension: Seq<char>,
    template: Seq<char>,
) -> Seq<(Seq<char>, Seq<char>, Seq<char>)>
    decreases vs.len(),
{
    if vs.len() == 0 {
        Seq::empty()
    } else {
        let rest = written::<T>(vs.drop_last(), folder, extension, template);
        match T::rendered(vs.last(), template) {
            Ok(n) => rest.push((folder, T::key(vs.last()) + extension, n)),
            Err(_) => rest,
        }
    }
}

/// The resources of a list that do not render, in list order, each with its reason.
pub open spec fn unwritten<T: Render>(vs: Seq<T::V>, template: Seq<char>) -> Seq<
    (Seq<char>, RecordError),
>
    decreases vs.len(),
{
    if vs.len() == 0 {
        Seq::empty()
    } else {
        let rest = unwritten::<T>(vs.drop_last(), template);
        match T::rendered(vs.last(), template) {
            Ok(_) => rest,
            Err(e) => rest.push((T::key(vs.last()), e)),
        }
    }
}

fn write_list<T: Render>(
    list: &Vec<T>,
    folder: &str,
    extension: &str,
    template: &str,
    files: &mut Vec<NoteFile>,
    failures: &mut Vec<RecordFailure>,
)
    ensures
        file_views(final(files)@) == file_views(old(files)@) + written::<T>(
            views_of(list@),
            folder@,
            extension@,
            template@,
        ),
        failure_views(final(failures)@) == failure_views(old(failures)@) + unwritten::<T>(
            views_of(list@),
            template@,
        ),
{
    let ghost files0 = file_views(files@);
    let ghost failures0 = failure_views(failures@);
    let mut i: usize = 0;
    assert(views_of(list@.take(0)) =~= Seq::<T::V>::empty());
    assert(files0 + Seq::empty() =~= files0);
    assert(failures0 + Seq::empty() =~= failures0);
    while i < list.len()
        invariant
            i <= list.len(),
            file_views(files@) == files0 + written::<T>(
                views_of(list@.take(i as int)),
                folder@,
                extension@,
                template@,
            ),
            failure_views(failures@) == failures0 + unwritten::<T>(
                views_of(list@.take(i as int)),
                template@,
            ),
        decreases list.len() - i,
    {
        let ghost vs = views_of(list@.take(i + 1));
        assert(vs.drop_last() =~= views_of(list@.take(i as int)));
        let ghost files1 = file_views(files@);
        let ghost failures1 = failure_views(failures@);
        let id = list[i].identifier();
        match list[i].render(template) {
            Ok(content) => {
                let mut file_name = id;
                file_name.append(extension);
                files.push(NoteFile { folder: String::from_str(folder), file_name, content });
                assert(file_views(files@) =~= files1.push(file_views(files@).last()));
            },
            Err(e) => {
                failures.push(RecordFailure { id, reason: e });
                assert(failure_views(failures@) =~= failures1.push(failure_views(failures@).last()));
            },
        }
        i = i + 1;
    }
    assert(list@.take(i as int) =~= list@);
}

/// The notes to write for the lists, category by category: articles, academic
/// papers, books, TED talks, YouTube videos, each in its own folder.
pub open spec fn planned_files(r: ReferencesView, t: TemplatesView, extension: Seq<char>) -> Seq<
    (Seq<char>, Seq<char>, Seq<char>),
> {
    written::<Article>(r.articles, "Articles"@, extension, t.article) + written::<AcademicPaper>(
        r.academic_papers,
        "Academic Papers"@,
        extension,
        t.academic_paper,
    ) + written::<Book>(r.books, "Books"@, extension, t.book) + written::<TEDTalk>(
        r.ted_talks,
        "TED Talks"@,
        extension,
        t.ted_talk,
    ) + written::<YoutubeVideo>(r.youtube_videos, "Youtube Videos"@, extension, t.youtube_video)
}

/// The resources of the lists whose notes do not render, in the order of
/// [`planned_files`].
pub open spec fn unrendered(r: ReferencesView, t: TemplatesView) -> Seq<(Seq<char>, RecordError)> {
    unwritten::<Article>(r.articles, t.article) + unwritten::<AcademicPaper>(
        r.academic_papers,
        t.academic_paper,
    ) + unwritten::<Book>(r.books, t.book) + unwritten::<TEDTalk>(r.ted_talks, t.ted_talk)
        + unwritten::<YoutubeVideo>(r.youtube_videos, t.youtube_video)
}

/// The notes of a run, and the records that gave none.
pub struct Notes {
    pub files: Vec<NoteFile>,
    pub failures: Vec<RecordFailure>,
}

impl References {
    /// Renders every resource with the template of its category: the notes to
    /// write, and the resources that could not be rendered.
    pub fn note_files(&self, templates: &Templates, extension: &str) -> (r: Notes)
        ensures
            file_views(r.files@) == planned_files(self@, templates@, extension@),
            failure_views(r.failures@) == unrendered(self@, templates@),
    {
        let mut files: Vec<NoteFile> = Vec::new();
        let mut failures: Vec<RecordFailure> = Vec::new();
        write_list(
            &self.articles.article_list,
            "Articles",
            extension,
            templates.article.as_str(),
            &mut files,
            &mut failures,
        );
        write_list(
            &self.academic_papers.academic_paper_list,
            "Academic Papers",
            extension,
            templates.academic_paper.as_str(),
            &mut files,
            &mut failures,
        );
        write_list(
            &self.books.book_list,
            "Books",
            extension,
            templates.book.as_str(),
            &mut files,
            &mut failures,
        );
        write_list(
            &self.ted_talks.ted_talk_list,
            "TED Talks",
            extension,
            templates.ted_talk.as_str(),
            &mut files,
            &mut failures,
        );
        write_list(
            &self.youtube_videos.youtube_video_list,
            "Youtube Videos",
            extension,
            templates.youtube_video.as_str(),
            &mut files,
            &mut failures,
        );
        assert(file_views(files@) =~= planned_files(self@, templates@, extension@));
        assert(failure_views(failures@) =~= unrendered(self@, templates@));
        Notes { files, failures }
    }
}

/// The notes that a run writes for a list of records.
pub open spec fn pipeline_files(items: Seq<ItemView>, t: TemplatesView, extension: Seq<char>) -> Seq<
    (Seq<char>, Seq<char>, Seq<char>),
> {
    planned_files(populated(no_references(), items), t, extension)
}

/// The records for which a run writes no note although they belong to a category:
/// first those that give no resource, then those whose note does not render.
pub open spec fn pipeline_failures(items: Seq<ItemView>, t: TemplatesView) -> Seq<
    (Seq<char>, RecordError),
> {
    failures_from(items) + unrendered(populated(no_references(), items), t)
}

/// A whole run: sorts the records into fresh lists and renders every resource.
pub fn generate_notes(items: &Vec<Item>, templates: &Templates, extension: &str) -> (r: Notes)
    ensures
        file_views(r.files@) == pipeline_files(item_views(items@), templates@, extension@),
        failure_views(r.failures@) == pipeline_failures(item_views(items@), templates@),
{
    let mut references = References::new();
    let mut failures = references.populate(items);
    let mut notes = references.note_files(templates, extension);
    let ghost populating = failures@;
    let ghost rendering = notes.failures@;
    failures.append(&mut notes.failures);
    assert(failure_views(failures@) =~= failure_views(populating) + failure_views(rendering));
    Notes { files: notes.files, failures }
}

/// Running again on records that read the same, with the same templates, writes
/// the same notes, byte for byte, and reports the same failures: what a run
/// writes depends on its input alone, not on what an earlier run left behind.
pub proof fn lemma_rerun_same_notes(
    items: Seq<Item>,
    again: Seq<Item>,
    t: TemplatesView,
    extension: Seq<char>,
)
    requires
        item_views(items) == item_views(again),
    ensures
        pipeline_files(item_views(items), t, extension) == pipeline_files(
            item_views(again),
            t,
            extension,
        ),
        pipeline_failures(item_views(items), t) == pipeline_failures(item_views(again), t),
{
}

} // verus!
