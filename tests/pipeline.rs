use mdbook_killer::chapter::Chapter;
use mdbook_killer::front_matter::{chapter_from_fields, lookup_field, MetaField};
use mdbook_killer::orchestrator::{
    clean_target, language_list, output_dir, source_dir, BuildPlan, BuildStep, CleanTarget,
};
use mdbook_killer::pages::{page_file_name, plan_chapter_pages, plan_homepage};
use mdbook_killer::parser::{first_line_of, parse, starts_with_marker, ParseError};
use mdbook_killer::scan::{scan_sources, SourceFile};

fn chapter(title: &str, slug: &str, content: &str) -> Chapter {
    Chapter {
        title: title.to_string(),
        slug: Some(slug.to_string()),
        content: Some(content.to_string()),
    }
}

fn source(stem: &str, text: &str) -> SourceFile {
    SourceFile { stem: stem.to_string(), text: text.to_string() }
}

#[test]
fn front_matter_file_becomes_declared_chapter() {
    let c = parse("---\ntitle: Intro\nslug: intro\n---\nHello", "intro").unwrap();
    assert_eq!(c, chapter("Intro", "intro", "Hello"));
    assert_eq!(page_file_name(c.slug.as_ref().unwrap()), "intro.html");
    assert_eq!(output_dir("en"), "./out/book/en");
}

#[test]
fn front_matter_slug_overrides_stem() {
    let c = parse("---\ntitle: Start\nslug: begin\n---\nBody text", "file_name").unwrap();
    assert_eq!(c, chapter("Start", "begin", "Body text"));
}

#[test]
fn front_matter_without_slug_takes_stem() {
    let c = parse("---\ntitle: Intro\n---\nHello", "first").unwrap();
    assert_eq!(c, chapter("Intro", "first", "Hello"));
}

#[test]
fn front_matter_with_null_slug_takes_stem() {
    let c = parse("---\ntitle: Intro\nslug: ~\n---\nHello", "first").unwrap();
    assert_eq!(c, chapter("Intro", "first", "Hello"));
}

#[test]
fn front_matter_content_key_is_replaced_by_body() {
    let c = parse("---\ntitle: T\ncontent: other\n---\nReal body", "t").unwrap();
    assert_eq!(c.content, Some("Real body".to_string()));
}

#[test]
fn front_matter_without_title_is_malformed() {
    assert_eq!(parse("---\nslug: intro\n---\nHello", "x"), Err(ParseError::MalformedFrontMatter));
}

#[test]
fn front_matter_with_list_title_is_malformed() {
    assert_eq!(parse("---\ntitle: [a, b]\n---\nHello", "x"), Err(ParseError::MalformedFrontMatter));
}

#[test]
fn front_matter_with_numeric_slug_is_malformed() {
    assert_eq!(
        parse("---\ntitle: Intro\nslug: 5\n---\nHello", "x"),
        Err(ParseError::MalformedFrontMatter)
    );
}

#[test]
fn unclosed_front_matter_is_malformed() {
    assert_eq!(parse("---\ntitle: Intro\n", "x"), Err(ParseError::MalformedFrontMatter));
}

#[test]
fn bare_marker_is_malformed() {
    assert_eq!(parse("---", "x"), Err(ParseError::MalformedFrontMatter));
}

#[test]
fn plain_file_becomes_first_line_chapter() {
    let c = parse("Bienvenido\nTexto del capitulo", "nota").unwrap();
    assert_eq!(c, chapter("Bienvenido", "nota", "Bienvenido\nTexto del capitulo"));
}

#[test]
fn plain_single_line_file() {
    let c = parse("Only line", "one").unwrap();
    assert_eq!(c, chapter("Only line", "one", "Only line"));
}

#[test]
fn plain_file_with_crlf_title() {
    let c = parse("Título\r\nCuerpo", "t").unwrap();
    assert_eq!(c.title, "Título");
    assert_eq!(c.content, Some("Título\r\nCuerpo".to_string()));
}

#[test]
fn plain_file_starting_with_newline_has_empty_title() {
    let c = parse("\nsecond", "s").unwrap();
    assert_eq!(c.title, "");
}

#[test]
fn two_dashes_are_not_a_marker() {
    assert!(!starts_with_marker("--x"));
    assert!(starts_with_marker("---x"));
    let c = parse("--x\nbody", "d").unwrap();
    assert_eq!(c.title, "--x");
}

#[test]
fn first_line_matches_std_lines() {
    for text in ["a\nb", "a\r\nb", "abc", "\n", "x\r", "é\nü"] {
        assert_eq!(first_line_of(text), text.lines().next().unwrap());
    }
}

#[test]
fn empty_file_fails_to_parse() {
    assert_eq!(parse("", "empty"), Err(ParseError::EmptyFile));
}

#[test]
fn scan_keeps_every_readable_chapter() {
    let files = vec![
        source("a", "Alpha\nbody"),
        source("b", "---\ntitle: Beta\n---\nB"),
        source("c", "Gamma"),
    ];
    let report = scan_sources(&files);
    assert_eq!(report.chapters.len(), 3);
    assert!(report.skipped.is_empty());
    let titles: Vec<&str> = report.chapters.iter().map(|c| c.title.as_str()).collect();
    assert_eq!(titles, vec!["Alpha", "Beta", "Gamma"]);
    let slugs: Vec<&str> = report.chapters.iter().map(|c| c.slug.as_deref().unwrap()).collect();
    assert_eq!(slugs, vec!["a", "b", "c"]);
}

#[test]
fn scan_skips_malformed_front_matter() {
    let files = vec![
        source("a", "Alpha"),
        source("bad", "---\nslug: nothing\n---\nNo title"),
        source("c", "Gamma"),
    ];
    let report = scan_sources(&files);
    assert_eq!(report.chapters.len(), 2);
    assert_eq!(report.skipped, vec!["bad".to_string()]);
}

#[test]
fn scan_skips_empty_file() {
    let files = vec![source("empty", ""), source("z", "Zeta")];
    let report = scan_sources(&files);
    assert_eq!(report.chapters, vec![chapter("Zeta", "z", "Zeta")]);
    assert_eq!(report.skipped, vec!["empty".to_string()]);
}

#[test]
fn scan_of_empty_directory_is_empty() {
    let report = scan_sources(&Vec::new());
    assert!(report.chapters.is_empty());
    assert!(report.skipped.is_empty());
}

#[test]
fn chapter_pages_are_named_by_slug() {
    let chapters = vec![chapter("A", "a", "x"), chapter("B", "b", "y")];
    let pages = plan_chapter_pages(&chapters, "es");
    assert_eq!(pages.len(), 2);
    assert_eq!(pages[0].file_name, "a.html");
    assert_eq!(pages[0].chapter, Some(0));
    assert_eq!(pages[1].file_name, "b.html");
    assert_eq!(pages[1].chapter, Some(1));
    assert_eq!(pages[1].language, "es");
}

#[test]
fn homepage_uses_default_language_or_empty() {
    let page = plan_homepage(&Some("en".to_string()));
    assert_eq!(page.file_name, "index.html");
    assert_eq!(page.chapter, None);
    assert_eq!(page.language, "en");
    assert_eq!(plan_homepage(&None).language, "");
}

#[test]
fn directories_of_languages() {
    assert_eq!(source_dir("es"), "./src/es");
    assert_eq!(source_dir(""), "./src/");
    assert_eq!(output_dir(""), "./out/book/");
}

#[test]
fn languages_default_to_unnamed() {
    assert_eq!(language_list(None), vec!["".to_string()]);
    let given = vec!["en".to_string(), "es".to_string()];
    assert_eq!(language_list(Some(given.clone())), given);
}

#[test]
fn build_accumulates_chapters_across_languages() {
    let mut plan = BuildPlan::new(vec!["en".to_string(), "es".to_string()], Some("en".to_string()), true);
    match plan.next_step() {
        BuildStep::Language { language, source_dir, output_dir } => {
            assert_eq!(language, "en");
            assert_eq!(source_dir, "./src/en");
            assert_eq!(output_dir, "./out/book/en");
        }
        other => panic!("unexpected step {:?}", other),
    }
    plan.record_scan(vec![chapter("Intro", "intro", "Hello")]);
    plan.record_scan(vec![chapter("Nota", "nota", "Texto")]);
    assert_eq!(plan.chapters.len(), 2);
    let pages = plan.chapter_pages("es");
    assert_eq!(pages[0].file_name, "intro.html");
    assert_eq!(pages[1].file_name, "nota.html");
    match plan.next_step() {
        BuildStep::Homepage { page } => {
            assert_eq!(page.file_name, "index.html");
            assert_eq!(page.language, "en");
        }
        other => panic!("unexpected step {:?}", other),
    }
    assert_eq!(plan.chapter_list(), plan.chapters);
}

#[test]
fn build_without_accumulation_resets_per_language() {
    let mut plan = BuildPlan::new(vec!["en".to_string(), "es".to_string()], None, false);
    plan.record_scan(vec![chapter("Intro", "intro", "Hello")]);
    plan.record_scan(vec![chapter("Nota", "nota", "Texto")]);
    assert_eq!(plan.chapters, vec![chapter("Nota", "nota", "Texto")]);
}

#[test]
fn unreadable_language_is_skipped() {
    let mut plan = BuildPlan::new(
        vec!["en".to_string(), "xx".to_string(), "es".to_string()],
        None,
        true,
    );
    plan.record_scan(vec![chapter("Intro", "intro", "Hello")]);
    plan.skip_language();
    assert_eq!(plan.chapters, vec![chapter("Intro", "intro", "Hello")]);
    match plan.next_step() {
        BuildStep::Language { language, .. } => assert_eq!(language, "es"),
        other => panic!("unexpected step {:?}", other),
    }
}

#[test]
fn clean_target_prefers_given_directory() {
    assert_eq!(
        clean_target(Some("out".to_string()), Some("b".to_string()), "d".to_string()),
        CleanTarget::Given("out".to_string())
    );
    assert_eq!(
        clean_target(None, Some("b".to_string()), "d".to_string()),
        CleanTarget::UnderSource("b".to_string())
    );
    assert_eq!(clean_target(None, None, "d".to_string()), CleanTarget::UnderSource("d".to_string()));
}

#[test]
fn front_matter_extra_keys_are_ignored() {
    let c = parse("---\ntitle: T\nauthor: me\n---\nB", "t").unwrap();
    assert_eq!(c, chapter("T", "t", "B"));
}

#[test]
fn front_matter_that_is_not_a_table_is_malformed() {
    assert_eq!(parse("---\njust text\n---\nB", "t"), Err(ParseError::MalformedFrontMatter));
}

#[test]
fn lookup_field_reads_entries() {
    let entries = vec![
        ("slug".to_string(), MetaField::Text("s".to_string())),
        ("title".to_string(), MetaField::Other),
    ];
    assert_eq!(lookup_field(&entries, "slug"), MetaField::Text("s".to_string()));
    assert_eq!(lookup_field(&entries, "title"), MetaField::Other);
    assert_eq!(lookup_field(&entries, "content"), MetaField::Absent);
}

#[test]
fn chapter_from_fields_decides_by_field_kinds() {
    let ok = chapter_from_fields(
        MetaField::Text("T".to_string()),
        MetaField::Absent,
        MetaField::Absent,
        "body".to_string(),
        "stem",
    );
    assert_eq!(ok, Ok(chapter("T", "stem", "body")));
    let bad = chapter_from_fields(
        MetaField::Text("T".to_string()),
        MetaField::Absent,
        MetaField::Other,
        "body".to_string(),
        "stem",
    );
    assert_eq!(bad, Err(ParseError::MalformedFrontMatter));
}
