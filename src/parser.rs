use vstd::prelude::*;
use vstd::string::*;

use crate::chapter::{Chapter, ChapterView};
use crate::front_matter::{front_matter_result, parse_front_matter};

verus! {

/// Why a source file did not become a chapter.
#[derive(Debug, Clone, Copy, PartialEq, Eq, Structural)]
pub enum ParseError {
    /// The file holds no text at all, so it has no title line.
    EmptyFile,
    /// The file opens a front-matter block that does not describe a chapter.
    MalformedFrontMatter,
}

/// The text opens with the front-matter marker `---`.
pub open spec fn has_marker(s: Seq<char>) -> bool {
    s.len() >= 3 && s[0] == '-' && s[1] == '-' && s[2] == '-'
}

/// The index of the first line feed in `s`, or its length when there is none.
pub open spec fn line_end(s: Seq<char>) -> int
    decreases s.len(),
{
    if s.len() == 0 || s[0] == '\n' {
        0
    } else {
        1 + line_end(s.drop_first())
    }
}

/// The first line of `s`, without its line feed and without a carriage return right before
/// that line feed. A carriage return that no line feed follows stays.
pub open spec fn first_line(s: Seq<char>) -> Seq<char> {
    let raw = s.subrange(0, line_end(s));
    if line_end(s) < s.len() && raw.len() > 0 && raw.last() == '\r' {
        raw.drop_last()
    } else {
        raw
    }
}

/// The chapter that a file without front matter becomes.
pub open spec fn plain_chapter(text: Seq<char>, stem: Seq<char>) -> ChapterView {
    ChapterView { title: first_line(text), slug: Some(stem), content: Some(text) }
}

/// `i` is the index of the first line feed in `s`, or its length.
proof fn lemma_line_end(s: Seq<char>, i: int)
    requires
        0 <= i <= s.len(),
        forall|j: int| 0 <= j < i ==> s[j] != '\n',
        i == s.len() || s[i] == '\n',
    ensures
        line_end(s) == i,
    decreases i,
{
    if i > 0 {
        let t = s.drop_first();
        assert forall|j: int| 0 <= j < i - 1 implies t[j] != '\n' by {
            assert(t[j] == s[j + 1]);
        }
        if i < s.len() {
            assert(t[i - 1] == s[i]);
        }
        lemma_line_end(t, i - 1);
    }
}

/// The text opens with `---`.
pub fn starts_with_marker(text: &str) -> (r: bool)
    ensures
        r == has_marker(text@),
{
    let n = text.unicode_len();
    n >= 3 && text.get_char(0) == '-' && text.get_char(1) == '-' && text.get_char(2) == '-'
}

/// The first line of a text, as `str::lines` yields it.
pub fn first_line_of(text: &str) -> (r: String)
    ensures
        r@ == first_line(text@),
{
    let n = text.unicode_len();
    let mut i: usize = 0;
    while i < n && text.get_char(i) != '\n'
        invariant
            n == text@.len(),
            i <= n,
            forall|j: int| 0 <= j < i ==> text@[j] != '\n',
        decreases n - i,
    {
        i = i + 1;
    }
    proof {
        lemma_line_end(text@, i as int);
    }
    let end: usize = if i < n && i > 0 && text.get_char(i - 1) == '\r' {
        i - 1
    } else {
        i
    };
    let line = text.substring_char(0, end);
    let r = line.to_owned();
    assert(r@ =~= first_line(text@));
    r
}

/// The chapter of a file without front matter: its first line is the title, its stem the
/// slug, and the whole text the content. A file without any text has no title line.
pub fn parse_plain(text: &str, stem: &str) -> (r: Result<Chapter, ParseError>)
    ensures
        text@.len() == 0 <==> r is Err,
        r is Err ==> r == Err::<Chapter, ParseError>(ParseError::EmptyFile),
        r is Ok ==> r->Ok_0@ == plain_chapter(text@, stem@),
{
    if text.unicode_len() == 0 {
        return Err(ParseError::EmptyFile);
    }
    let title = first_line_of(text);
    Ok(Chapter { title, slug: Some(stem.to_owned()), content: Some(text.to_owned()) })
}

/// What parsing a source file's text with its stem gives: a text that opens with `---`
/// is read as a front-matter block; any other text is a plain chapter, and an empty one
/// has no title line.
pub open spec fn parse_result(text: Seq<char>, stem: Seq<char>) -> Result<ChapterView, ParseError> {
    if has_marker(text) {
        front_matter_result(text, stem)
    } else if text.len() == 0 {
        Err(ParseError::EmptyFile)
    } else {
        Ok(plain_chapter(text, stem))
    }
}

/// The view of a parse result.
pub open spec fn outcome_view(r: Result<Chapter, ParseError>) -> Result<ChapterView, ParseError> {
    match r {
        Ok(c) => Ok(c@),
        Err(e) => Err(e),
    }
}

/// Turns the text of one source file, with the stem of its name, into a chapter. A text
/// that opens with `---` is read as a front-matter block followed by a body; any other text
/// is a plain chapter titled by its first line.
pub fn parse(text: &str, stem: &str) -> (r: Result<Chapter, ParseError>)
    ensures
        outcome_view(r) == parse_result(text@, stem@),
{
    if starts_with_marker(text) {
        parse_front_matter(text, stem)
    } else {
        parse_plain(text, stem)
    }
}

} // verus!
