use vstd::prelude::*;
use vstd::string::*;

use crate::chapter::{opt_text, Chapter};

verus! {

/// One page to render and write: the file name under the language's output directory, the
/// index of the chapter it shows in the chapter list (none for a homepage), and the
/// language it is rendered for. Every page is rendered with the whole chapter list.
#[derive(Debug, Clone, PartialEq, Eq)]
pub struct PageJob {
    pub file_name: String,
    pub chapter: Option<usize>,
    pub language: String,
}

/// Every chapter has a slug, so that it can name its output file.
pub open spec fn all_have_slugs(chapters: Seq<Chapter>) -> bool {
    forall|i: int| 0 <= i < chapters.len() ==> (#[trigger] chapters[i]).slug is Some
}

/// The output file name of a page with this slug.
pub open spec fn page_name(slug: Seq<char>) -> Seq<char> {
    slug + ".html"@
}

/// The name of the file that a homepage is written to.
pub open spec fn index_name() -> Seq<char> {
    "index.html"@
}

/// The output file name of a chapter's page: its slug followed by `.html`.
pub fn page_file_name(slug: &str) -> (r: String)
    ensures
        r@ == page_name(slug@),
{
    let r = slug.to_owned();
    r.concat(".html")
}

/// The chapter pages of one language: one page for each chapter, in the order of the list,
/// each named after its chapter's slug and rendered for `language`.
pub fn plan_chapter_pages(chapters: &Vec<Chapter>, language: &str) -> (r: Vec<PageJob>)
    requires
        all_have_slugs(chapters@),
    ensures
        r.len() == chapters.len(),
        forall|i: int|
            0 <= i < r.len() ==> {
                &&& (#[trigger] r[i]).chapter == Some(i as usize)
                &&& r[i].file_name@ == page_name(opt_text(chapters[i].slug).unwrap())
                &&& r[i].language@ == language@
            },
{
    let mut r: Vec<PageJob> = Vec::new();
    let mut i: usize = 0;
    while i < chapters.len()
        invariant
            i <= chapters.len(),
            all_have_slugs(chapters@),
            r.len() == i,
            forall|j: int|
                0 <= j < i ==> {
                    &&& (#[trigger] r[j]).chapter == Some(j as usize)
                    &&& r[j].file_name@ == page_name(opt_text(chapters[j].slug).unwrap())
                    &&& r[j].language@ == language@
                },
        decreases chapters.len() - i,
    {
        let slug = match &chapters[i].slug {
            Some(s) => s.as_str(),
            None => {
                assert(chapters@[i as int].slug is Some);
                ""
            },
        };
        let file_name = page_file_name(slug);
        r.push(PageJob { file_name, chapter: Some(i), language: language.to_owned() });
        i = i + 1;
    }
    r
}

/// The homepage: `index.html`, showing no chapter, rendered for the default language, or
/// for the unnamed language when none is configured.
pub fn plan_homepage(default_language: &Option<String>) -> (r: PageJob)
    ensures
        r.file_name@ == index_name(),
        r.chapter is None,
        r.language@ == match opt_text(*default_language) {
            Some(l) => l,
            None => Seq::empty(),
        },
{
    let language = match default_language {
        Some(l) => l.clone(),
        None => String::new(),
    };
    PageJob { file_name: "index.html".to_owned(), chapter: None, language }
}

} // verus!
