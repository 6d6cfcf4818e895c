use vstd::prelude::*;
use crate::text::{concat_all, concat_text, join, join_text, views};

verus! {

/// One reference of the library export, as read from it.
pub struct Item {
    pub id: String,
    pub item_type: String,
    pub doi: Option<String>,
    pub title: Option<String>,
    pub library_catalog: Option<String>,
    pub url: Option<String>,
    pub creators: Vec<Creator>,
    pub isbn: Option<String>,
    pub short_title: Option<String>,
    pub select: Option<String>,
    pub uri: Option<String>,
    pub published_date: Option<String>,
    pub journal: Option<String>,
    pub tags: Vec<Tag>,
    pub notes: Vec<Note>,
}

/// A contributor: a single display name, or a first and a last name, with an
/// optional role.
pub struct Creator {
    pub creator_type: Option<String>,
    pub first_name: Option<String>,
    pub last_name: Option<String>,
    pub name: Option<String>,
}

/// A label.
pub struct Tag {
    pub tag: String,
}

/// A free-text note with where and when it was written.
pub struct Note {
    pub date_added: String,
    pub date_modified: String,
    pub content: String,
    pub uri: String,
}

/// What a creator holds, as text.
pub struct CreatorView {
    pub creator_type: Option<Seq<char>>,
    pub first_name: Option<Seq<char>>,
    pub last_name: Option<Seq<char>>,
    pub name: Option<Seq<char>>,
}

/// What a note holds, as text.
pub struct NoteView {
    pub date_added: Seq<char>,
    pub date_modified: Seq<char>,
    pub content: Seq<char>,
    pub uri: Seq<char>,
}

/// What a record holds, as text; a tag is its label.
pub struct ItemView {
    pub id: Seq<char>,
    pub item_type: Seq<char>,
    pub doi: Option<Seq<char>>,
    pub title: Option<Seq<char>>,
    pub library_catalog: Option<Seq<char>>,
    pub url: Option<Seq<char>>,
    pub creators: Seq<CreatorView>,
    pub isbn: Option<Seq<char>>,
    pub short_title: Option<Seq<char>>,
    pub select: Option<Seq<char>>,
    pub uri: Option<Seq<char>>,
    pub published_date: Option<Seq<char>>,
    pub journal: Option<Seq<char>>,
    pub tags: Seq<Seq<char>>,
    pub notes: Seq<NoteView>,
}

/// The text of an optional string.
pub open spec fn opt_view(o: Option<String>) -> Option<Seq<char>> {
    match o {
        Some(s) => Some(s@),
        None => None,
    }
}

/// The labels of a list of tags.
pub open spec fn tag_views(tags: Seq<Tag>) -> Seq<Seq<char>> {
    tags.map_values(|t: Tag| t.tag@)
}

/// The views of a list of creators.
pub open spec fn creator_views(creators: Seq<Creator>) -> Seq<CreatorView> {
    creators.map_values(|c: Creator| c@)
}

/// The views of a list of notes.
pub open spec fn note_views(notes: Seq<Note>) -> Seq<NoteView> {
    notes.map_values(|n: Note| n@)
}

/// The views of a list of records.
pub open spec fn item_views(items: Seq<Item>) -> Seq<ItemView> {
    items.map_values(|i: Item| i@)
}

impl View for Creator {
    type V = CreatorView;

    open spec fn view(&self) -> CreatorView {
        CreatorView {
            creator_type: opt_view(self.creator_type),
            first_name: opt_view(self.first_name),
            last_name: opt_view(self.last_name),
            name: opt_view(self.name),
        }
    }
}

impl View for Note {
    type V = NoteView;

    open spec fn view(&self) -> NoteView {
        NoteView {
            date_added: self.date_added@,
            date_modified: self.date_modified@,
            content: self.content@,
            uri: self.uri@,
        }
    }
}

impl View for Item {
    type V = ItemView;

    open spec fn view(&self) -> ItemView {
        ItemView {
            id: self.id@,
            item_type: self.item_type@,
            doi: opt_view(self.doi),
            title: opt_view(self.title),
            library_catalog: opt_view(self.library_catalog),
            url: opt_view(self.url),
            creators: creator_views(self.creators@),
            isbn: opt_view(self.isbn),
            short_title: opt_view(self.short_title),
            select: opt_view(self.select),
            uri: opt_view(self.uri),
            published_date: opt_view(self.published_date),
            journal: opt_view(self.journal),
            tags: tag_views(self.tags@),
            notes: note_views(self.notes@),
        }
    }
}

/// A copy of an optional text.
pub fn copy_text(o: &Option<String>) -> (r: Option<String>)
    ensures
        r == *o,
{
    match o {
        Some(s) => Some(s.clone()),
        None => None,
    }
}

impl Creator {
    /// A copy of this creator.
    pub fn duplicate(&self) -> (r: Creator)
        ensures
            r == *self,
    {
        Creator {
            creator_type: copy_text(&self.creator_type),
            first_name: copy_text(&self.first_name),
            last_name: copy_text(&self.last_name),
            name: copy_text(&self.name),
        }
    }

    /// The fields of the creator that are present, in the form `key: "value"`.
    pub open spec fn text(self) -> Seq<char> {
        let role = match self.creator_type {
            Some(t) => "creator_type: \""@ + t@ + "\", "@,
            None => Seq::empty(),
        };
        let who = if self.first_name is Some && self.last_name is Some {
            "first_name: \""@ + self.first_name->0@ + "\", "@ + "last_name: \""@
                + self.last_name->0@ + "\""@
        } else if self.name is Some {
            "name: \""@ + self.name->0@ + "\""@
        } else {
            Seq::empty()
        };
        role + who
    }

    /// The creator as text, in the form of [`Creator::text`].
    pub fn to_string(&self) -> (r: String)
        ensures
            r@ == self.text(),
    {
        let mut output = String::new();
        if let Some(t) = &self.creator_type {
            output.append("creator_type: \"");
            output.append(t.as_str());
            output.append("\", ");
        }
        if self.first_name.is_some() && self.last_name.is_some() {
            output.append("first_name: \"");
            output.append(self.first_name.as_ref().unwrap().as_str());
            output.append("\", ");
            output.append("last_name: \"");
            output.append(self.last_name.as_ref().unwrap().as_str());
            output.append("\"");
        } else if let Some(n) = &self.name {
            output.append("name: \"");
            output.append(n.as_str());
            output.append("\"");
        }
        output
    }
}

impl Tag {
    /// A copy of this tag.
    pub fn duplicate(&self) -> (r: Tag)
        ensures
            r == *self,
    {
        Tag { tag: self.tag.clone() }
    }

    /// The label itself.
    pub fn to_string(&self) -> (r: String)
        ensures
            r@ == self.tag@,
    {
        self.tag.clone()
    }
}

impl Note {
    /// A copy of this note.
    pub fn duplicate(&self) -> (r: Note)
        ensures
            r == *self,
    {
        Note {
            date_added: self.date_added.clone(),
            date_modified: self.date_modified.clone(),
            content: self.content.clone(),
            uri: self.uri.clone(),
        }
    }

    /// This note with its content made of `text_nodes`, the text that a parse of
    /// the content's markup found, laid end to end: the note as plain text.
    pub fn with_text_nodes(&self, text_nodes: &Vec<String>) -> (r: Note)
        ensures
            r.date_added == self.date_added,
            r.date_modified == self.date_modified,
            r.content@ == concat_all(views(text_nodes@)),
            r.uri == self.uri,
    {
        Note {
            date_added: self.date_added.clone(),
            date_modified: self.date_modified.clone(),
            content: concat_text(text_nodes),
            uri: self.uri.clone(),
        }
    }

    /// The content of the note.
    pub fn to_string(&self) -> (r: String)
        ensures
            r@ == self.content@,
    {
        self.content.clone()
    }
}

/// A copy of a list of tags.
pub fn copy_tags(tags: &Vec<Tag>) -> (r: Vec<Tag>)
    ensures
        r@ == tags@,
{
    let mut r: Vec<Tag> = Vec::new();
    for i in 0..tags.len()
        invariant
            r@ == tags@.take(i as int),
    {
        r.push(tags[i].duplicate());
        assert(r@ =~= tags@.take(i + 1));
    }
    assert(tags@.take(tags.len() as int) =~= tags@);
    r
}

/// A copy of a list of creators.
pub fn copy_creators(creators: &Vec<Creator>) -> (r: Vec<Creator>)
    ensures
        r@ == creators@,
{
    let mut r: Vec<Creator> = Vec::new();
    for i in 0..creators.len()
        invariant
            r@ == creators@.take(i as int),
    {
        r.push(creators[i].duplicate());
        assert(r@ =~= creators@.take(i + 1));
    }
    assert(creators@.take(creators.len() as int) =~= creators@);
    r
}

/// A copy of a list of notes.
pub fn copy_notes(notes: &Vec<Note>) -> (r: Vec<Note>)
    ensures
        r@ == notes@,
{
    let mut r: Vec<Note> = Vec::new();
    for i in 0..notes.len()
        invariant
            r@ == notes@.take(i as int),
    {
        r.push(notes[i].duplicate());
        assert(r@ =~= notes@.take(i + 1));
    }
    assert(notes@.take(notes.len() as int) =~= notes@);
    r
}

/// A line `label: value` where the value is present, nothing where it is not.
pub open spec fn labelled(label: Seq<char>, attr: Option<String>) -> Seq<char> {
    match attr {
        Some(v) => label + ": "@ + v@ + "\n"@,
        None => Seq::empty(),
    }
}

/// The tags, each in double quotes, separated by `", "`, on a line `tags: [...]`.
pub open spec fn tags_line(tags: Seq<Tag>) -> Seq<char> {
    "tags: ["@ + join(tags.map_values(|t: Tag| "\""@ + t.tag@ + "\""@), ", "@) + "]\n"@
}

/// The creators, each as `\n{ <text> },`, inside `creators: [...]`.
pub open spec fn creators_block(creators: Seq<Creator>) -> Seq<char> {
    "creators: ["@ + concat_all(creators.map_values(|c: Creator| "\n{ "@ + c.text() + " },"@))
        + "]"@
}

/// The note contents, each as `\n\t{ <content> },`, inside `\nnotes: [` and `\n]`.
pub open spec fn notes_block(notes: Seq<Note>) -> Seq<char> {
    "\nnotes: ["@ + concat_all(notes.map_values(|n: Note| "\n\t{ "@ + n.content@ + " },"@))
        + "\n]"@
}

/// The whole record as a front-matter block.
pub open spec fn item_text(item: Item) -> Seq<char> {
    "---\nresouce_type: "@ + item.item_type@ + "\nID: "@ + item.id@ + "\n"@
        + labelled("URL"@, item.url) + labelled("DOI"@, item.doi)
        + labelled("isbn_13"@, item.isbn) + labelled("title"@, item.title)
        + labelled("journal"@, item.journal) + labelled("source"@, item.library_catalog)
        + labelled("published_date"@, item.published_date)
        + labelled("#title"@, item.short_title)
        + labelled("Open in Zotero (library)"@, item.select)
        + labelled("Open in Zotero (cloud)"@, item.uri) + tags_line(item.tags@)
        + creators_block(item.creators@) + notes_block(item.notes@) + "\n---\n"@
}

impl Item {
    /// The record as a front-matter block, as [`item_text`] lays it out.
    pub fn to_string(&self) -> (r: String)
        ensures
            r@ == item_text(*self),
    {
        generate_item_string(self)
    }
}

fn generate_item_string(item: &Item) -> (r: String)
    ensures
        r@ == item_text(*item),
{
    let mut output = String::from_str("---\nresouce_type: ");
    output.append(item.item_type.as_str());
    output.append("\nID: ");
    output.append(item.id.as_str());
    output.append("\n");
    output.append(generate_display("URL", &item.url).as_str());
    output.append(generate_display("DOI", &item.doi).as_str());
    output.append(generate_display("isbn_13", &item.isbn).as_str());
    output.append(generate_display("title", &item.title).as_str());
    output.append(generate_display("journal", &item.journal).as_str());
    output.append(generate_display("source", &item.library_catalog).as_str());
    output.append(generate_display("published_date", &item.published_date).as_str());
    output.append(generate_display("#title", &item.short_title).as_str());
    output.append(generate_display("Open in Zotero (library)", &item.select).as_str());
    output.append(generate_display("Open in Zotero (cloud)", &item.uri).as_str());
    output.append(display_tags(&item.tags).as_str());
    output.append(display_creators(&item.creators).as_str());
    output.append(display_notes(&item.notes).as_str());
    output.append("\n---\n");
    output
}

fn generate_display(label: &str, attr: &Option<String>) -> (r: String)
    ensures
        r@ == labelled(label@, *attr),
{
    match attr {
        Some(v) => {
            let mut output = String::from_str(label);
            output.append(": ");
            output.append(v.as_str());
            output.append("\n");
            output
        },
        None => String::new(),
    }
}

fn display_tags(tags: &Vec<Tag>) -> (r: String)
    ensures
        r@ == tags_line(tags@),
{
    let mut quoted: Vec<String> = Vec::new();
    let mut i: usize = 0;
    while i < tags.len()
        invariant
            i <= tags.len(),
            quoted.len() == i,
            forall|j: int| 0 <= j < i ==> (#[trigger] quoted@[j])@ == "\""@ + tags@[j].tag@ + "\""@,
        decreases tags.len() - i,
    {
        let mut q = String::from_str("\"");
        q.append(tags[i].tag.as_str());
        q.append("\"");
        quoted.push(q);
        i = i + 1;
    }
    assert(views(quoted@) =~= tags@.map_values(|t: Tag| "\""@ + t.tag@ + "\""@));
    let mut output = String::from_str("tags: [");
    output.append(join_text(&quoted, ", ").as_str());
    output.append("]\n");
    output
}

fn display_creators(creators: &Vec<Creator>) -> (r: String)
    ensures
        r@ == creators_block(creators@),
{
    let mut entries: Vec<String> = Vec::new();
    let mut i: usize = 0;
    while i < creators.len()
        invariant
            i <= creators.len(),
            entries.len() == i,
            forall|j: int| 0 <= j < i ==> (#[trigger] entries@[j])@ == "\n{ "@ + creators@[j].text() + " },"@,
        decreases creators.len() - i,
    {
        let mut e = String::from_str("\n{ ");
        e.append(creators[i].to_string().as_str());
        e.append(" },");
        entries.push(e);
        i = i + 1;
    }
    assert(views(entries@) =~= creators@.map_values(|c: Creator| "\n{ "@ + c.text() + " },"@));
    let mut output = String::from_str("creators: [");
    output.append(concat_text(&entries).as_str());
    output.append("]");
    output
}

fn display_notes(notes: &Vec<Note>) -> (r: String)
    ensures
        r@ == notes_block(notes@),
{
    let mut entries: Vec<String> = Vec::new();
    let mut i: usize = 0;
    while i < notes.len()
        invariant
            i <= notes.len(),
            entries.len() == i,
            forall|j: int| 0 <= j < i ==> (#[trigger] entries@[j])@ == "\n\t{ "@ + notes@[j].content@ + " },"@,
        decreases notes.len() - i,
    {
        let mut e = String::from_str("\n\t{ ");
        e.append(notes[i].content.as_str());
        e.append(" },");
        entries.push(e);
        i = i + 1;
    }
    assert(views(entries@) =~= notes@.map_values(|n: Note| "\n\t{ "@ + n.content@ + " },"@));
    let mut output = String::from_str("\nnotes: [");
    output.append(concat_text(&entries).as_str());
    output.append("\n]");
    output
}

} // verus!
