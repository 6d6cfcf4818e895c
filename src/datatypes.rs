use vstd::prelude::*;
use crate::json_parser::{Creator, Item, Note, Tag, copy_creators, copy_notes, copy_tags};
use crate::template::{fill_template, filled, pair_views};

verus! {

/// A book as the first layout of the notes had it: every field read straight from
/// its record.
pub struct Book {
    pub id: String,
    pub isbn: String,
    pub title: String,
    pub short_title: String,
    pub authors: Vec<Creator>,
    pub publish_date: String,
    pub tags: Vec<Tag>,
    pub notes: Vec<Note>,
    pub zotero_cloud_link: String,
    pub zotero_local_link: String,
}

pub struct TEDTalk {}

pub struct Article {}

pub struct AcademicPaper {}

/// A YouTube video as an older export described it.
pub struct YoutubeVideo {
    pub url: String,
    pub item_abstract: String,
    pub title: String,
    pub id: String,
    pub language: String,
    pub source: String,
    pub item_type: String,
}

/// The record has every field that a book of this layout reads.
pub open spec fn has_book_fields(item: Item) -> bool {
    &&& item.isbn is Some
    &&& item.title is Some
    &&& item.short_title is Some
    &&& item.published_date is Some
    &&& item.uri is Some
    &&& item.select is Some
}

/// The book of a record that has all of its fields; notes are kept as written.
#[allow(non_snake_case)]
pub fn createBookFromItem(item: &Item) -> (b: Book)
    requires
        has_book_fields(*item),
    ensures
        b.id == item.id,
        Some(b.isbn) == item.isbn,
        Some(b.title) == item.title,
        Some(b.short_title) == item.short_title,
        b.authors@ == item.creators@,
        Some(b.publish_date) == item.published_date,
        b.tags@ == item.tags@,
        b.notes@ == item.notes@,
        Some(b.zotero_cloud_link) == item.uri,
        Some(b.zotero_local_link) == item.select,
{
    Book {
        id: item.id.clone(),
        isbn: item.isbn.as_ref().unwrap().clone(),
        title: item.title.as_ref().unwrap().clone(),
        short_title: item.short_title.as_ref().unwrap().clone(),
        authors: copy_creators(&item.creators),
        publish_date: item.published_date.as_ref().unwrap().clone(),
        tags: copy_tags(&item.tags),
        notes: copy_notes(&item.notes),
        zotero_cloud_link: item.uri.as_ref().unwrap().clone(),
        zotero_local_link: item.select.as_ref().unwrap().clone(),
    }
}

/// The placeholders of this layout and what each stands for.
pub open spec fn book_pairs(b: Book) -> Seq<(Seq<char>, Seq<char>)> {
    seq![
        ("{{title}}"@, b.short_title@),
        ("{{publish_date}}"@, b.publish_date@),
        ("{{citekey}}"@, b.id@),
        ("{{full_title}}"@, b.title@),
        ("{{zotero_local_link}}"@, b.zotero_local_link@),
        ("{{zotero_cloud_link}}"@, b.zotero_cloud_link@),
    ]
}

impl Book {
    /// The note of the book: `template` with `{{title}}` (the short title),
    /// `{{publish_date}}`, `{{citekey}}`, `{{full_title}}` and the two links filled in.
    pub fn render(&self, template: &str) -> (r: String)
        ensures
            r@ == filled(template@, book_pairs(*self)),
    {
        let mut subs: Vec<(String, String)> = Vec::new();
        subs.push((String::from_str("{{title}}"), self.short_title.clone()));
        subs.push((String::from_str("{{publish_date}}"), self.publish_date.clone()));
        subs.push((String::from_str("{{citekey}}"), self.id.clone()));
        subs.push((String::from_str("{{full_title}}"), self.title.clone()));
        subs.push((String::from_str("{{zotero_local_link}}"), self.zotero_local_link.clone()));
        subs.push((String::from_str("{{zotero_cloud_link}}"), self.zotero_cloud_link.clone()));
        assert(pair_views(subs@) =~= book_pairs(*self));
        fill_template(template, &subs)
    }
}

} // verus!
