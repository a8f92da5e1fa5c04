use vstd::prelude::*;

use gray_matter::engine::YAML;
use gray_matter::{Matter, Pod};

use crate::chapter::{Chapter, ChapterView};
use crate::parser::{outcome_view, ParseError};

verus! {

/// What one key of a front-matter block holds, as far as a chapter reads it.
#[derive(Debug, Clone, PartialEq, Eq)]
pub enum MetaField {
    /// The key is missing, or its value is null.
    Absent,
    /// The key holds a string.
    Text(String),
    /// The key holds a number, a boolean, a list or a table.
    Other,
}

/// The mathematical value of a front-matter field.
pub enum FieldView {
    Absent,
    Text(Seq<char>),
    Other,
}

impl View for MetaField {
    type V = FieldView;

    open spec fn view(&self) -> FieldView {
        match self {
            MetaField::Absent => FieldView::Absent,
            MetaField::Text(s) => FieldView::Text(s@),
            MetaField::Other => FieldView::Other,
        }
    }
}

/// The text that a front-matter field holds, if it holds a string.
pub open spec fn field_text(f: FieldView) -> Option<Seq<char>> {
    match f {
        FieldView::Text(s) => Some(s),
        _ => None,
    }
}

/// The fields describe a chapter: the title is a string, the slug and the content are
/// strings or absent.
pub open spec fn describes_chapter(title: FieldView, slug: FieldView, content: FieldView) -> bool {
    &&& title is Text
    &&& !(slug is Other)
    &&& !(content is Other)
}

/// The chapter that a front-matter block with these fields and this body becomes: the
/// declared title, the declared slug or else the file's stem, and the body as content.
pub open spec fn matter_chapter(
    title: FieldView,
    slug: FieldView,
    body: Seq<char>,
    stem: Seq<char>,
) -> ChapterView {
    ChapterView {
        title: field_text(title).unwrap(),
        slug: match field_text(slug) {
            Some(s) => Some(s),
            None => Some(stem),
        },
        content: Some(body),
    }
}

/// What a front-matter block with these fields gives: its chapter, or a malformed block.
pub open spec fn fields_result(
    title: FieldView,
    slug: FieldView,
    content: FieldView,
    body: Seq<char>,
    stem: Seq<char>,
) -> Result<ChapterView, ParseError> {
    if describes_chapter(title, slug, content) {
        Ok(matter_chapter(title, slug, body, stem))
    } else {
        Err(ParseError::MalformedFrontMatter)
    }
}

/// The value under `key` in a front-matter table; a missing key reads as absent.
pub open spec fn table_field(table: Map<Seq<char>, FieldView>, key: Seq<char>) -> FieldView {
    if table.contains_key(key) {
        table[key]
    } else {
        FieldView::Absent
    }
}

/// What `gray_matter` makes of a text: the table of its front-matter block, when one was
/// found and holds a table, and the body that is left once the block is taken out.
pub uninterp spec fn matter_of(s: Seq<char>) -> (Option<Map<Seq<char>, FieldView>>, Seq<char>);

/// The outcome of parsing a text that opens with a front-matter block.
pub open spec fn front_matter_result(text: Seq<char>, stem: Seq<char>) -> Result<ChapterView, ParseError> {
    match matter_of(text).0 {
        Some(table) => fields_result(
            table_field(table, "title"@),
            table_field(table, "slug"@),
            table_field(table, "content"@),
            matter_of(text).1,
            stem,
        ),
        None => Err(ParseError::MalformedFrontMatter),
    }
}

/// The entries of a list, as pairs of a key and a field, hold exactly the table `table`:
/// each entry is in it, and each of its keys has an entry.
pub open spec fn entries_match(entries: Seq<(String, MetaField)>, table: Map<Seq<char>, FieldView>) -> bool {
    &&& forall|i: int|
        0 <= i < entries.len() ==> table.contains_key((#[trigger] entries[i]).0@) && table[entries[i].0@]
            == entries[i].1@
    &&& forall|k: Seq<char>|
        #[trigger] table.contains_key(k) ==> exists|i: int| 0 <= i < entries.len() && (#[trigger] entries[i]).0@ == k
}

/// Relies on `gray_matter::Matter::<YAML>::parse`: it depends on the text alone, and gives
/// the data of the front-matter block, if one was found, and the body after the block.
/// A table's entries (keys that are unique) come out in any order, each value told apart
/// as null, a string, or another value; data that is not a table comes out as none.
#[verifier::external_body]
fn split_front_matter(text: &str) -> (r: (Option<Vec<(String, MetaField)>>, String))
    ensures
        r.0 is Some <==> matter_of(text@).0 is Some,
        r.0 is Some ==> entries_match(r.0->Some_0@, matter_of(text@).0->Some_0),
        r.1@ == matter_of(text@).1,
{
    let parsed = Matter::<YAML>::new().parse(text);
    let table = match parsed.data {
        Some(Pod::Hash(h)) => Some(h.into_iter().map(|(k, v)| (k, match v {
            Pod::Null => MetaField::Absent,
            Pod::String(s) => MetaField::Text(s),
            _ => MetaField::Other,
        })).collect()),
        _ => None,
    };
    (table, parsed.content)
}

/// The field under `key` among the entries of a front-matter table.
pub fn lookup_field(entries: &Vec<(String, MetaField)>, key: &str) -> (r: MetaField)
    ensures
        forall|table: Map<Seq<char>, FieldView>|
            #![trigger entries_match(entries@, table)]
            entries_match(entries@, table) ==> r@ == table_field(table, key@),
{
    let wanted = key.to_owned();
    let mut i: usize = 0;
    while i < entries.len()
        invariant
            i <= entries.len(),
            wanted@ == key@,
            forall|j: int| 0 <= j < i ==> (#[trigger] entries@[j]).0@ != key@,
        decreases entries.len() - i,
    {
        if entries[i].0 == wanted {
            return match &entries[i].1 {
                MetaField::Absent => MetaField::Absent,
                MetaField::Text(s) => MetaField::Text(s.clone()),
                MetaField::Other => MetaField::Other,
            };
        }
        i = i + 1;
    }
    assert forall|table: Map<Seq<char>, FieldView>|
        #![trigger entries_match(entries@, table)]
        entries_match(entries@, table) implies !table.contains_key(key@) by {
        if table.contains_key(key@) {
            let j = choose|j: int| 0 <= j < entries@.len() && (#[trigger] entries@[j]).0@ == key@;
            assert(entries@[j].0@ != key@);
        }
    }
    MetaField::Absent
}

/// The chapter that a front-matter block describes. The title must be a string; the slug,
/// when it is given, must be a string, and the file's stem stands in for it otherwise.
pub fn chapter_from_fields(
    title: MetaField,
    slug: MetaField,
    content: MetaField,
    body: String,
    stem: &str,
) -> (r: Result<Chapter, ParseError>)
    ensures
        outcome_view(r) == fields_result(title@, slug@, content@, body@, stem@),
{
    if let MetaField::Other = content {
        return Err(ParseError::MalformedFrontMatter);
    }
    let slug = match slug {
        MetaField::Absent => stem.to_owned(),
        MetaField::Text(s) => s,
        MetaField::Other => {
            return Err(ParseError::MalformedFrontMatter);
        },
    };
    match title {
        MetaField::Text(t) => Ok(Chapter { title: t, slug: Some(slug), content: Some(body) }),
        _ => Err(ParseError::MalformedFrontMatter),
    }
}

/// A front-matter block that declares a title and a slug as strings, and no content key,
/// describes a chapter with exactly that title and slug, whose content is the body after
/// the block.
pub proof fn law_front_matter_recovered(title: Seq<char>, slug: Seq<char>, body: Seq<char>, stem: Seq<char>)
    ensures
        fields_result(FieldView::Text(title), FieldView::Text(slug), FieldView::Absent, body, stem)
            == Ok::<ChapterView, ParseError>(ChapterView { title, slug: Some(slug), content: Some(body) }),
{
}

/// The chapter of a file that opens with a front-matter block: the block's table must
/// describe a chapter, which then has the body after the block as content.
pub fn parse_front_matter(text: &str, stem: &str) -> (r: Result<Chapter, ParseError>)
    ensures
        outcome_view(r) == front_matter_result(text@, stem@),
{
    let (data, body) = split_front_matter(text);
    match data {
        Some(entries) => {
            let title = lookup_field(&entries, "title");
            let slug = lookup_field(&entries, "slug");
            let content = lookup_field(&entries, "content");
            chapter_from_fields(title, slug, content, body, stem)
        },
        None => Err(ParseError::MalformedFrontMatter),
    }
}

} // verus!
