use vstd::prelude::*;

verus! {

/// One page of the book: its title, the stem of its output file, and its body.
#[derive(Debug, PartialEq, Eq)]
pub struct Chapter {
    pub title: String,
    pub slug: Option<String>,
    pub content: Option<String>,
}

/// The mathematical value of a chapter.
pub struct ChapterView {
    pub title: Seq<char>,
    pub slug: Option<Seq<char>>,
    pub content: Option<Seq<char>>,
}

/// The characters of an optional string.
pub open spec fn opt_text(o: Option<String>) -> Option<Seq<char>> {
    match o {
        Some(s) => Some(s@),
        None => None,
    }
}

impl View for Chapter {
    type V = ChapterView;

    open spec fn view(&self) -> ChapterView {
        ChapterView {
            title: self.title@,
            slug: opt_text(self.slug),
            content: opt_text(self.content),
        }
    }
}

/// The views of a list of chapters, in order.
pub open spec fn chapters_view(v: Seq<Chapter>) -> Seq<ChapterView> {
    v.map_values(|c: Chapter| c@)
}

/// A copy of an optional string.
pub fn copy_text(o: &Option<String>) -> (r: Option<String>)
    ensures
        opt_text(r) == opt_text(*o),
{
    match o {
        Some(s) => Some(s.clone()),
        None => None,
    }
}

impl Chapter {
    /// A copy of this chapter with the same title, slug and content.
    pub fn duplicate(&self) -> (r: Chapter)
        ensures
            r@ == self@,
    {
        Chapter {
            title: self.title.clone(),
            slug: copy_text(&self.slug),
            content: copy_text(&self.content),
        }
    }
}

/// A copy of a list of chapters, in the same order.
pub fn duplicate_all(v: &Vec<Chapter>) -> (r: Vec<Chapter>)
    ensures
        chapters_view(r@) == chapters_view(v@),
{
    let mut r: Vec<Chapter> = Vec::new();
    let mut i: usize = 0;
    while i < v.len()
        invariant
            i <= v.len(),
            r.len() == i,
            forall|j: int| 0 <= j < i ==> r@[j]@ == v@[j]@,
        decreases v.len() - i,
    {
        let c = v[i].duplicate();
        r.push(c);
        i = i + 1;
    }
    assert(chapters_view(r@) =~= chapters_view(v@));
    r
}

} // verus!
