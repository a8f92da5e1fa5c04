use vstd::prelude::*;
use vstd::string::*;

use crate::chapter::{chapters_view, duplicate_all, opt_text, Chapter};
use crate::pages::{all_have_slugs, plan_chapter_pages, plan_homepage, PageJob};

verus! {

/// The root of the source tree.
pub open spec fn source_root() -> Seq<char> {
    "./src/"@
}

/// The root of the output tree.
pub open spec fn output_root() -> Seq<char> {
    "./out/book/"@
}

/// The source directory of a language; the unnamed language is the source root itself.
pub fn source_dir(language: &str) -> (r: String)
    ensures
        r@ == source_root() + language@,
{
    let r = "./src/".to_owned();
    r.concat(language)
}

/// The output directory of a language; the unnamed language is the output root itself.
pub fn output_dir(language: &str) -> (r: String)
    ensures
        r@ == output_root() + language@,
{
    let r = "./out/book/".to_owned();
    r.concat(language)
}

/// The languages to build: the configured ones, or the unnamed language alone when none
/// are configured.
pub fn language_list(languages: Option<Vec<String>>) -> (r: Vec<String>)
    ensures
        languages is Some ==> r@ == languages->Some_0@,
        languages is None ==> r.len() == 1 && r[0]@ == Seq::<char>::empty(),
{
    match languages {
        Some(v) => v,
        None => {
            let mut r: Vec<String> = Vec::new();
            r.push(String::new());
            r
        },
    }
}

/// What the build does next.
#[derive(Debug, Clone, PartialEq, Eq)]
pub enum BuildStep {
    /// Scan the source directory of a language, then write its chapter pages into its
    /// output directory.
    Language { language: String, source_dir: String, output_dir: String },
    /// Write the homepage at the output root; the build is then complete.
    Homepage { page: PageJob },
}

/// The decisions of a build: which language comes next, and which chapters each page
/// generation pass is given. The scanning, rendering and writing happen outside.
#[derive(Debug)]
pub struct BuildPlan {
    /// The languages, in the order they are built.
    pub languages: Vec<String>,
    /// The language of the homepage at the output root.
    pub default_language: Option<String>,
    /// Whether the chapters of every language built so far are kept for the next one,
    /// rather than each language starting from its own chapters.
    pub accumulate_across_languages: bool,
    /// How many languages have been handled.
    pub next: usize,
    /// The chapter list that the next generation pass is given.
    pub chapters: Vec<Chapter>,
}

impl BuildPlan {
    /// The plan is in a consistent state.
    pub open spec fn wf(&self) -> bool {
        &&& self.next <= self.languages.len()
        &&& all_have_slugs(self.chapters@)
    }

    /// A plan that has handled no language and holds no chapter yet.
    pub fn new(
        languages: Vec<String>,
        default_language: Option<String>,
        accumulate_across_languages: bool,
    ) -> (r: BuildPlan)
        ensures
            r.wf(),
            r.languages@ == languages@,
            r.default_language == default_language,
            r.accumulate_across_languages == accumulate_across_languages,
            r.next == 0,
            r.chapters.len() == 0,
    {
        BuildPlan {
            languages,
            default_language,
            accumulate_across_languages,
            next: 0,
            chapters: Vec::new(),
        }
    }

    /// The next step: the next language in order, with its source and output directories,
    /// or the homepage once every language has been handled.
    pub fn next_step(&self) -> (r: BuildStep)
        requires
            self.wf(),
        ensures
            self.next < self.languages.len() ==> r == (BuildStep::Language {
                language: self.languages[self.next as int],
                source_dir: r->Language_source_dir,
                output_dir: r->Language_output_dir,
            }) && r->Language_source_dir@ == source_root() + self.languages[self.next as int]@
                && r->Language_output_dir@ == output_root() + self.languages[self.next as int]@,
            self.next == self.languages.len() ==> r is Homepage && r->Homepage_page.chapter is None
                && r->Homepage_page.file_name@ == "index.html"@
                && r->Homepage_page.language@ == match opt_text(self.default_language) {
                    Some(l) => l,
                    None => Seq::empty(),
                },
    {
        if self.next < self.languages.len() {
            let language = self.languages[self.next].clone();
            let source_dir = source_dir(language.as_str());
            let output_dir = output_dir(language.as_str());
            BuildStep::Language { language, source_dir, output_dir }
        } else {
            BuildStep::Homepage { page: plan_homepage(&self.default_language) }
        }
    }

    /// Takes in the chapters that the scan of the current language found, and moves on
    /// to the next language. With accumulation the new chapters follow those of the
    /// languages before; without it they replace them.
    pub fn record_scan(&mut self, batch: Vec<Chapter>)
        requires
            old(self).wf(),
            old(self).next < old(self).languages.len(),
            all_have_slugs(batch@),
        ensures
            final(self).wf(),
            final(self).next == old(self).next + 1,
            final(self).languages@ == old(self).languages@,
            final(self).default_language == old(self).default_language,
            final(self).accumulate_across_languages == old(self).accumulate_across_languages,
            old(self).accumulate_across_languages ==> final(self).chapters@ == old(self).chapters@ + batch@,
            !old(self).accumulate_across_languages ==> final(self).chapters@ == batch@,
    {
        if self.accumulate_across_languages {
            let mut batch = batch;
            self.chapters.append(&mut batch);
        } else {
            self.chapters = batch;
        }
        self.next = self.next + 1;
        assert(all_have_slugs(self.chapters@));
    }

    /// Moves on to the next language when the current one could not be scanned: the
    /// chapters of the languages before are kept as they are.
    pub fn skip_language(&mut self)
        requires
            old(self).wf(),
            old(self).next < old(self).languages.len(),
        ensures
            final(self).wf(),
            final(self).next == old(self).next + 1,
            final(self).languages@ == old(self).languages@,
            final(self).default_language == old(self).default_language,
            final(self).accumulate_across_languages == old(self).accumulate_across_languages,
            final(self).chapters@ == old(self).chapters@,
    {
        self.next = self.next + 1;
    }

    /// The pages of a generation pass for `language`: one for each chapter of the current
    /// list, in order.
    pub fn chapter_pages(&self, language: &str) -> (r: Vec<PageJob>)
        requires
            self.wf(),
        ensures
            r.len() == self.chapters.len(),
            forall|i: int|
                0 <= i < r.len() ==> {
                    &&& (#[trigger] r[i]).chapter == Some(i as usize)
                    &&& r[i].file_name@ == opt_text(self.chapters[i].slug).unwrap() + ".html"@
                    &&& r[i].language@ == language@
                },
    {
        plan_chapter_pages(&self.chapters, language)
    }

    /// A copy of the current chapter list, for a renderer to read.
    pub fn chapter_list(&self) -> (r: Vec<Chapter>)
        ensures
            chapters_view(r@) == chapters_view(self.chapters@),
    {
        duplicate_all(&self.chapters)
    }
}

/// Where a clean removes the built book.
#[derive(Debug, Clone, PartialEq, Eq)]
pub enum CleanTarget {
    /// The output directory given on the command line.
    Given(String),
    /// A directory under the book's source root.
    UnderSource(String),
}

/// The directory to remove: the one given on the command line, else the configured build
/// directory under the source root, else the book's root directory under it.
pub fn clean_target(dest_dir: Option<String>, build_dir: Option<String>, dir: String) -> (r: CleanTarget)
    ensures
        dest_dir is Some ==> r == CleanTarget::Given(dest_dir->Some_0),
        dest_dir is None && build_dir is Some ==> r == CleanTarget::UnderSource(build_dir->Some_0),
        dest_dir is None && build_dir is None ==> r == CleanTarget::UnderSource(dir),
{
    match dest_dir {
        Some(d) => CleanTarget::Given(d),
        None => match build_dir {
            Some(b) => CleanTarget::UnderSource(b),
            None => CleanTarget::UnderSource(dir),
        },
    }
}

} // verus!
