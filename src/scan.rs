use vstd::prelude::*;

use crate::chapter::{chapters_view, Chapter, ChapterView};
use crate::pages::all_have_slugs;
use crate::parser::{has_marker, outcome_view, parse, parse_result, plain_chapter, ParseError};

verus! {

/// One file of a language directory, read: the stem of its name and its text.
#[derive(Debug, Clone, PartialEq, Eq)]
pub struct SourceFile {
    pub stem: String,
    pub text: String,
}

/// What a scan of one language directory gives: the chapters, in the order of the files,
/// and the stems of the files that were skipped because they did not parse.
#[derive(Debug, PartialEq, Eq)]
pub struct ScanReport {
    pub chapters: Vec<Chapter>,
    pub skipped: Vec<String>,
}

/// The chapters among a sequence of parse outcomes, in order.
pub open spec fn kept(outs: Seq<Result<ChapterView, ParseError>>) -> Seq<ChapterView>
    decreases outs.len(),
{
    if outs.len() == 0 {
        Seq::empty()
    } else {
        let rest = kept(outs.drop_last());
        match outs.last() {
            Ok(c) => rest.push(c),
            Err(_) => rest,
        }
    }
}

/// The stems of the files whose parse failed, in order.
pub open spec fn dropped(
    stems: Seq<Seq<char>>,
    outs: Seq<Result<ChapterView, ParseError>>,
) -> Seq<Seq<char>>
    decreases outs.len(),
{
    if outs.len() == 0 {
        Seq::empty()
    } else {
        let rest = dropped(stems.drop_last(), outs.drop_last());
        match outs.last() {
            Ok(_) => rest,
            Err(_) => rest.push(stems.last()),
        }
    }
}

/// The stems of a list of source files.
pub open spec fn stems_of(files: Seq<SourceFile>) -> Seq<Seq<char>> {
    files.map_values(|f: SourceFile| f.stem@)
}

/// The characters of each string of a list.
pub open spec fn texts_of(v: Seq<String>) -> Seq<Seq<char>> {
    v.map_values(|s: String| s@)
}

/// The outcome of parsing each file, in order.
pub open spec fn outcomes(files: Seq<SourceFile>) -> Seq<Result<ChapterView, ParseError>> {
    files.map_values(|f: SourceFile| parse_result(f.text@, f.stem@))
}

/// A scan keeps exactly the chapters that parsed and names exactly the files that did not.
pub open spec fn scan_matches(files: Seq<SourceFile>, r: ScanReport) -> bool {
    &&& chapters_view(r.chapters@) == kept(outcomes(files))
    &&& texts_of(r.skipped@) == dropped(stems_of(files), outcomes(files))
}

/// Parses each file of a language directory in order. A file that does not parse is
/// skipped and its stem reported; the scan goes on with the next file.
pub fn scan_sources(files: &Vec<SourceFile>) -> (r: ScanReport)
    ensures
        scan_matches(files@, r),
        all_have_slugs(r.chapters@),
{
    let mut chapters: Vec<Chapter> = Vec::new();
    let mut skipped: Vec<String> = Vec::new();
    let mut i: usize = 0;
    while i < files.len()
        invariant
            i <= files.len(),
            chapters_view(chapters@) == kept(outcomes(files@.subrange(0, i as int))),
            all_have_slugs(chapters@),
            texts_of(skipped@) == dropped(
                stems_of(files@.subrange(0, i as int)),
                outcomes(files@.subrange(0, i as int)),
            ),
        decreases files.len() - i,
    {
        let f = &files[i];
        let res = parse(f.text.as_str(), f.stem.as_str());
        let ghost outs = outcomes(files@.subrange(0, i + 1));
        let ghost stems_prev = stems_of(files@.subrange(0, i as int));
        proof {
            assert(outs.drop_last() =~= outcomes(files@.subrange(0, i as int)));
            assert(outs.last() == outcome_view(res));
            assert(stems_of(files@.subrange(0, i + 1)).drop_last() =~= stems_prev);
            assert(stems_of(files@.subrange(0, i + 1)).last() == f.stem@);
        }
        match res {
            Ok(c) => {
                assert(c@.slug is Some);
                chapters.push(c);
                assert(chapters_view(chapters@) =~= kept(outs));
            },
            Err(_) => {
                skipped.push(f.stem.clone());
                assert(texts_of(skipped@) =~= dropped(stems_of(files@.subrange(0, i + 1)), outs));
            },
        }
        i = i + 1;
    }
    assert(files@.subrange(0, files.len() as int) =~= files@);
    ScanReport { chapters, skipped }
}

/// Every file that parses yields a chapter: when no outcome is a failure, the chapters are
/// exactly the outcomes, one for each file, in order.
pub proof fn law_scan_complete(outs: Seq<Result<ChapterView, ParseError>>)
    requires
        forall|i: int| 0 <= i < outs.len() ==> (#[trigger] outs[i]) is Ok,
    ensures
        kept(outs).len() == outs.len(),
        forall|i: int| 0 <= i < outs.len() ==> kept(outs)[i] == (#[trigger] outs[i])->Ok_0,
    decreases outs.len(),
{
    if outs.len() > 0 {
        let rest = outs.drop_last();
        assert forall|i: int| 0 <= i < rest.len() implies (#[trigger] rest[i]) is Ok by {
            assert(rest[i] == outs[i]);
        }
        law_scan_complete(rest);
        assert(outs.last() is Ok);
        assert forall|i: int| 0 <= i < outs.len() implies kept(outs)[i] == (#[trigger] outs[i])->Ok_0 by {
            if i < outs.len() - 1 {
                assert(rest[i] == outs[i]);
            }
        }
    }
}

/// A directory of non-empty files without front matter loses none of them: each file
/// becomes its plain chapter, in order.
pub proof fn law_plain_files_kept(files: Seq<SourceFile>)
    requires
        forall|i: int|
            0 <= i < files.len() ==> !has_marker((#[trigger] files[i]).text@) && files[i].text@.len() != 0,
    ensures
        kept(outcomes(files)).len() == files.len(),
        forall|i: int|
            0 <= i < files.len() ==> kept(outcomes(files))[i] == plain_chapter(
                (#[trigger] files[i]).text@,
                files[i].stem@,
            ),
{
    let outs = outcomes(files);
    assert forall|i: int| 0 <= i < outs.len() implies (#[trigger] outs[i]) is Ok by {
        assert(outs[i] == parse_result(files[i].text@, files[i].stem@));
    }
    law_scan_complete(outs);
    assert forall|i: int| 0 <= i < files.len() implies kept(outs)[i] == plain_chapter(
        (#[trigger] files[i]).text@,
        files[i].stem@,
    ) by {
        assert(outs[i] == parse_result(files[i].text@, files[i].stem@));
        assert(kept(outs)[i] == outs[i]->Ok_0);
    }
}

/// A scan of files that all parse keeps one chapter for each file: the chapter that its
/// file parses to, in the order of the files.
pub proof fn law_scan_keeps_valid_files(files: Seq<SourceFile>, r: ScanReport)
    requires
        scan_matches(files, r),
        forall|i: int| 0 <= i < files.len() ==> parse_result((#[trigger] files[i]).text@, files[i].stem@) is Ok,
    ensures
        r.chapters.len() == files.len(),
        r.skipped.len() == 0,
        forall|i: int|
            0 <= i < files.len() ==> Ok::<ChapterView, ParseError>((#[trigger] r.chapters[i])@) == parse_result(files[i].text@, files[i].stem@),
{
    let outs = outcomes(files);
    assert forall|i: int| 0 <= i < outs.len() implies (#[trigger] outs[i]) is Ok by {
        assert(outs[i] == parse_result(files[i].text@, files[i].stem@));
    }
    law_scan_complete(outs);
    law_scan_partition(stems_of(files), outs);
    assert(chapters_view(r.chapters@).len() == r.chapters.len());
    assert(texts_of(r.skipped@).len() == r.skipped.len());
    assert forall|i: int| 0 <= i < files.len() implies Ok::<ChapterView, ParseError>((#[trigger] r.chapters[i])@) == parse_result(
        files[i].text@,
        files[i].stem@,
    ) by {
        assert(outs[i] == parse_result(files[i].text@, files[i].stem@));
        assert(chapters_view(r.chapters@)[i] == r.chapters[i]@);
    }
}

/// A scan of files of which exactly one does not parse keeps one chapter fewer than there
/// are files, and reports that one file.
pub proof fn law_scan_drops_malformed_file(files: Seq<SourceFile>, r: ScanReport, k: int)
    requires
        scan_matches(files, r),
        0 <= k < files.len(),
        parse_result(files[k].text@, files[k].stem@) is Err,
        forall|i: int|
            0 <= i < files.len() && i != k ==> parse_result((#[trigger] files[i]).text@, files[i].stem@) is Ok,
    ensures
        r.chapters.len() == files.len() - 1,
        r.skipped.len() == 1,
{
    let outs = outcomes(files);
    assert(outs[k] == parse_result(files[k].text@, files[k].stem@));
    assert forall|i: int| 0 <= i < outs.len() && i != k implies (#[trigger] outs[i]) is Ok by {
        assert(outs[i] == parse_result(files[i].text@, files[i].stem@));
    }
    law_scan_one_malformed(outs, k);
    law_scan_partition(stems_of(files), outs);
    assert(chapters_view(r.chapters@).len() == r.chapters.len());
    assert(texts_of(r.skipped@).len() == r.skipped.len());
}

/// Two scans of the same files give the same chapters and report the same files.
pub proof fn law_rescan_identical(files: Seq<SourceFile>, r1: ScanReport, r2: ScanReport)
    requires
        scan_matches(files, r1),
        scan_matches(files, r2),
    ensures
        chapters_view(r1.chapters@) == chapters_view(r2.chapters@),
        texts_of(r1.skipped@) == texts_of(r2.skipped@),
{
}

/// Each file is either kept as a chapter or reported as skipped, never both.
pub proof fn law_scan_partition(stems: Seq<Seq<char>>, outs: Seq<Result<ChapterView, ParseError>>)
    requires
        stems.len() == outs.len(),
    ensures
        kept(outs).len() + dropped(stems, outs).len() == outs.len(),
    decreases outs.len(),
{
    if outs.len() > 0 {
        law_scan_partition(stems.drop_last(), outs.drop_last());
    }
}

/// One file that fails among files that all parse costs exactly one chapter.
pub proof fn law_scan_one_malformed(outs: Seq<Result<ChapterView, ParseError>>, k: int)
    requires
        0 <= k < outs.len(),
        outs[k] is Err,
        forall|i: int| 0 <= i < outs.len() && i != k ==> (#[trigger] outs[i]) is Ok,
    ensures
        kept(outs).len() == outs.len() - 1,
    decreases outs.len(),
{
    let rest = outs.drop_last();
    if k == outs.len() - 1 {
        assert forall|i: int| 0 <= i < rest.len() implies (#[trigger] rest[i]) is Ok by {
            assert(rest[i] == outs[i]);
        }
        law_scan_complete(rest);
    } else {
        assert(rest[k] == outs[k]);
        assert forall|i: int| 0 <= i < rest.len() && i != k implies (#[trigger] rest[i]) is Ok by {
            assert(rest[i] == outs[i]);
        }
        law_scan_one_malformed(rest, k);
        assert(outs.last() == outs[outs.len() - 1]);
    }
}

} // verus!
