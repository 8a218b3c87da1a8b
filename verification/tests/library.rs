use bibfzf::actions::{available_actions, dispatch, label, menu_labels, Action, Outcome};
use bibfzf::entry::{normalize, NormalizedEntry, RawEntry, Tag};
use bibfzf::locate::{base_name_str, index_paths, locate_bibs, texlive_bib_root, FileIndex};
use bibfzf::parse::{normalize_entries, parse_entries};
use bibfzf::preamble::{compose_preamble, resolve_preambles};
use bibfzf::render::{
    find_entry, lookup_entry, preview_command, summary_line, summary_lines, LookupResult,
};
use bibfzf::settings::{default_settings, Settings};
use bibfzf::text::{join_lines, lower_str, split_colons, strformat};

fn tag(name: &str, value: &str) -> Tag {
    Tag { name: name.to_string(), value: value.to_string() }
}

fn raw(key: &str, entry_type: &str, tags: Vec<Tag>) -> RawEntry {
    RawEntry { key: key.to_string(), entry_type: entry_type.to_string(), tags }
}

fn entry_with(tags: Vec<Tag>) -> NormalizedEntry {
    normalize(raw("k1", "article", tags))
}

fn test_settings() -> Settings {
    let mut s = default_settings();
    s.open_pdf = "pdfview".to_string();
    s.open_doi = "browse".to_string();
    s.open_url = "browse".to_string();
    s
}

#[test]
fn strformat_collapses_runs_and_trims() {
    assert_eq!(strformat("  A   title\twith\n\nbreaks  "), "A title with breaks");
    assert_eq!(strformat("plain"), "plain");
    assert_eq!(strformat(""), "");
    assert_eq!(strformat(" \t\n "), "");
}

#[test]
fn strformat_is_idempotent() {
    for s in ["  a \t b ", "x", "", "a\nb\r\nc", " \u{0041}  Z"] {
        let once = strformat(s);
        let twice = strformat(&once);
        assert_eq!(twice, once);
    }
}

#[test]
fn strformat_output_has_no_stray_whitespace() {
    let out = strformat(" a \t\t b\n c ");
    assert!(!out.starts_with(char::is_whitespace));
    assert!(!out.ends_with(char::is_whitespace));
    let chars: Vec<char> = out.chars().collect();
    for w in chars.windows(2) {
        assert!(!(w[0].is_whitespace() && w[1].is_whitespace()));
    }
}

#[test]
fn lower_str_lowers_ascii_only() {
    assert_eq!(lower_str("TiTLE-9"), "title-9");
    assert_eq!(lower_str(""), "");
}

#[test]
fn split_colons_keeps_empty_segments() {
    assert_eq!(split_colons("desc:/tmp/x.pdf:PDF"), vec!["desc", "/tmp/x.pdf", "PDF"]);
    assert_eq!(split_colons("desc"), vec!["desc"]);
    assert_eq!(split_colons(":a:"), vec!["", "a", ""]);
    assert_eq!(split_colons(""), vec![""]);
}

#[test]
fn join_lines_uses_single_newlines() {
    let ls = vec!["a".to_string(), "b".to_string(), "c".to_string()];
    assert_eq!(join_lines(&ls), "a\nb\nc");
    assert_eq!(join_lines(&vec![]), "");
    assert_eq!(join_lines(&vec!["one".to_string()]), "one");
}

#[test]
fn normalizer_last_occurrence_wins_any_case() {
    let e = entry_with(vec![
        tag("Title", "first"),
        tag("TITLE", "second"),
        tag("note", "n"),
        tag("title", "third"),
    ]);
    assert_eq!(e.get_field("title").map(String::as_str), Some("third"));
    assert_eq!(e.get_field("TITLE").map(String::as_str), Some("third"));
    assert_eq!(e.get_field("TiTlE").map(String::as_str), Some("third"));
    assert_eq!(e.get_field("note").map(String::as_str), Some("n"));
    assert_eq!(e.get_field("absent"), None);
}

#[test]
fn normalizer_keeps_raw_values() {
    let e = entry_with(vec![tag("Author", "A.  B.\nC.")]);
    assert_eq!(e.get_field("author").map(String::as_str), Some("A.  B.\nC."));
}

#[test]
fn menu_has_only_copy_actions_without_fields() {
    let e = entry_with(vec![tag("title", "t")]);
    let menu = available_actions(&e);
    assert_eq!(menu, vec![Action::CopyKey, Action::CopyCite]);
    assert_eq!(menu_labels(&menu), vec!["Copy key", "Copy \\cite"]);
}

#[test]
fn menu_has_all_five_in_table_order() {
    let e = entry_with(vec![tag("file", "d:p:t"), tag("DOI", "10.1/x"), tag("url", "u")]);
    let menu = available_actions(&e);
    assert_eq!(
        menu,
        vec![Action::OpenPdf, Action::OpenUrl, Action::OpenDoi, Action::CopyKey, Action::CopyCite]
    );
}

#[test]
fn action_labels() {
    assert_eq!(label(Action::OpenPdf), "Open PDF");
    assert_eq!(label(Action::OpenUrl), "Open URL");
    assert_eq!(label(Action::OpenDoi), "Open DOI");
}

#[test]
fn open_pdf_rejects_short_file_field() {
    let s = test_settings();
    let e = entry_with(vec![tag("file", "desc")]);
    assert_eq!(
        dispatch(Action::OpenPdf, &e, &s),
        Outcome::Notice { message: "'file' field not recognized".to_string() }
    );
}

#[test]
fn open_pdf_spawns_on_middle_segment() {
    let s = test_settings();
    let e = entry_with(vec![tag("File", "desc:/tmp/x.pdf:PDF")]);
    assert_eq!(
        dispatch(Action::OpenPdf, &e, &s),
        Outcome::Spawn { program: "pdfview".to_string(), arg: "/tmp/x.pdf".to_string() }
    );
}

#[test]
fn open_pdf_without_file_reports() {
    let s = test_settings();
    let e = entry_with(vec![]);
    assert_eq!(
        dispatch(Action::OpenPdf, &e, &s),
        Outcome::Notice { message: "No PDF in entry k1".to_string() }
    );
}

#[test]
fn open_doi_prefixes_resolver() {
    let s = test_settings();
    let e = entry_with(vec![tag("doi", "10.1000/xyz")]);
    assert_eq!(
        dispatch(Action::OpenDoi, &e, &s),
        Outcome::Spawn {
            program: "browse".to_string(),
            arg: "https://dx.doi.org/10.1000/xyz".to_string(),
        }
    );
    let bare = entry_with(vec![]);
    assert_eq!(
        dispatch(Action::OpenDoi, &bare, &s),
        Outcome::Notice { message: "No DOI in entry k1".to_string() }
    );
}

#[test]
fn open_url_passes_raw_value() {
    let s = test_settings();
    let e = entry_with(vec![tag("URL", "http://example.org/a b")]);
    assert_eq!(
        dispatch(Action::OpenUrl, &e, &s),
        Outcome::Spawn { program: "browse".to_string(), arg: "http://example.org/a b".to_string() }
    );
}

#[test]
fn copy_actions_emit_key_and_cite() {
    let s = test_settings();
    let e = entry_with(vec![]);
    assert_eq!(dispatch(Action::CopyKey, &e, &s), Outcome::Emit { line: "k1".to_string() });
    assert_eq!(
        dispatch(Action::CopyCite, &e, &s),
        Outcome::Emit { line: "\\cite{k1}".to_string() }
    );
}

#[test]
fn lookup_renders_first_duplicate_and_formats_values() {
    let entries = vec![
        raw("A", "article", vec![tag("Title", "One  line\ttitle")]),
        raw("B", "book", vec![]),
        raw("A", "misc", vec![tag("Title", "shadowed")]),
    ];
    match lookup_entry(&entries, "A") {
        LookupResult::Found { rows } => {
            assert_eq!(
                rows,
                vec![
                    ("key".to_string(), "A".to_string()),
                    ("type".to_string(), "article".to_string()),
                    ("Title".to_string(), "One line title".to_string()),
                ]
            );
        }
        LookupResult::NotFound { .. } => panic!("expected a match"),
    }
}

#[test]
fn lookup_reports_missing_key() {
    let entries = vec![raw("A", "article", vec![])];
    assert_eq!(
        lookup_entry(&entries, "Z"),
        LookupResult::NotFound { message: "Couldn't find key Z".to_string() }
    );
    assert_eq!(find_entry(&entries, "Z"), None);
    assert_eq!(find_entry(&entries, "A"), Some(0));
}

#[test]
fn summary_line_formats_fields_and_blanks() {
    let e = entry_with(vec![
        tag("title", "A  long\ttitle"),
        tag("Year", "2001"),
    ]);
    assert_eq!(summary_line(&e), "k1 | A long title -  - 2001");
    let lines = summary_lines(&vec![e]);
    assert_eq!(lines, vec!["k1 | A long title -  - 2001".to_string()]);
}

#[test]
fn preview_command_reinvokes_lookup_mode() {
    assert_eq!(preview_command("/bin/prog", "refs.bib"), "/bin/prog --key {1} refs.bib");
}

#[test]
fn base_names_follow_last_slash() {
    assert_eq!(base_name_str("/a/b/shared.bib"), "shared.bib");
    assert_eq!(base_name_str("shared.bib"), "shared.bib");
}

#[test]
fn index_resolves_last_write_wins() {
    let paths = vec![
        "/x/one.bib".to_string(),
        "/y/two.bib".to_string(),
        "/z/one.bib".to_string(),
    ];
    let ix = index_paths(&paths);
    assert_eq!(ix.get_path("one.bib").map(String::as_str), Some("/z/one.bib"));
    assert_eq!(ix.get_path("two.bib").map(String::as_str), Some("/y/two.bib"));
    assert_eq!(ix.get_path("three.bib"), None);
}

#[test]
fn locating_under_missing_root_yields_empty_index() {
    let ix = locate_bibs("/nonexistent-root-for-bibliographies").expect("pattern is well-formed");
    assert_eq!(ix.get_path("any.bib"), None);
}

#[test]
fn texlive_root_layout() {
    assert_eq!(
        texlive_bib_root("/usr/local/texlive"),
        "/usr/local/texlive/*/texmf-dist/bibtex/bib"
    );
}

#[test]
fn preamble_resolution_skips_unresolved_with_warning() {
    let ix = FileIndex { entries: vec![("other.bib".to_string(), "/t/other.bib".to_string())] };
    let ids = vec!["/abs/extra.bib".to_string(), "shared.bib".to_string()];
    let r = resolve_preambles(&ids, &ix);
    assert_eq!(r.paths, vec!["/abs/extra.bib".to_string()]);
    assert_eq!(r.warnings, vec!["Couldn't locate: shared.bib".to_string()]);
}

#[test]
fn preamble_resolution_uses_shared_tree() {
    let ix = FileIndex { entries: vec![("shared.bib".to_string(), "/t/shared.bib".to_string())] };
    let ids = vec!["shared.bib".to_string()];
    let r = resolve_preambles(&ids, &ix);
    assert_eq!(r.paths, vec!["/t/shared.bib".to_string()]);
    assert!(r.warnings.is_empty());
}

#[test]
fn composed_text_orders_builtin_fragments_target() {
    let frags = vec!["@String { x = \"y\" }".to_string()];
    let composed = compose_preamble("BUILTIN", &frags, "TARGET");
    assert_eq!(composed, "BUILTIN\n@String { x = \"y\" }TARGET");
    let b = composed.find("BUILTIN").unwrap();
    let f = composed.find("@String { x").unwrap();
    let t = composed.find("TARGET").unwrap();
    assert!(b < f && f < t);
}

#[test]
fn composed_text_separates_fragments_with_single_newlines() {
    let frags = vec!["X".to_string(), "Y".to_string()];
    assert_eq!(compose_preamble("B", &frags, "T"), "B\nX\nYT");
    assert_eq!(compose_preamble("B", &vec![], "T"), "B\nT");
}

#[test]
fn default_settings_match_documented_defaults() {
    let s = default_settings();
    assert_eq!(s.open_pdf, "open");
    assert_eq!(s.open_doi, "open");
    assert_eq!(s.open_url, "open");
    assert_eq!(s.copy_key, "pbcopy");
    assert_eq!(s.copy_cite, "pbcopy");
    assert_eq!(s.texlive_path, "/usr/local/texlive");
    assert!(s.preamble_files.is_empty());
    assert!(s.preamble.contains("@String { jan = \"January\" }"));
}

#[test]
fn parser_boundary_round_trip() {
    let text = "@article{key1, title = {Some  Title}, Author = {An Author}, year = {2020}}";
    let entries = parse_entries(text).expect("well-formed bibtex parses");
    assert_eq!(entries.len(), 1);
    assert_eq!(entries[0].key, "key1");
    assert_eq!(entries[0].entry_type, "article");
    let normalized = normalize_entries(entries);
    assert_eq!(
        normalized[0].get_field("author").map(String::as_str),
        Some("An Author")
    );
    assert_eq!(summary_line(&normalized[0]), "key1 | Some Title - An Author - 2020");
}

#[test]
fn parser_failure_is_signalled() {
    assert!(parse_entries("@article{unclosed").is_none());
}

#[test]
fn parser_expands_preamble_variables() {
    let frags: Vec<String> = Vec::new();
    let composed = compose_preamble(
        "@String { jan = \"January\" }",
        &frags,
        "@misc{m1, month = jan}",
    );
    let entries = parse_entries(&composed).expect("composed text parses");
    let normalized = normalize_entries(entries);
    assert_eq!(normalized[0].get_field("month").map(String::as_str), Some("January"));
}

#[test]
fn menu_with_partial_fields_keeps_table_order() {
    let e = entry_with(vec![tag("doi", "10.1/x"), tag("url", "u")]);
    assert_eq!(
        available_actions(&e),
        vec![Action::OpenUrl, Action::OpenDoi, Action::CopyKey, Action::CopyCite]
    );
}

#[test]
fn open_pdf_accepts_exactly_three_segments() {
    let s = test_settings();
    let e = entry_with(vec![tag("file", "::")]);
    assert_eq!(
        dispatch(Action::OpenPdf, &e, &s),
        Outcome::Spawn { program: "pdfview".to_string(), arg: String::new() }
    );
}

#[test]
fn cyclic_string_definitions_fail_to_parse() {
    assert!(parse_entries("@string{a = a}\n@misc{m, note = a}").is_none());
    assert!(parse_entries("@string{a = b}\n@string{b = a}\n@misc{m, note = a}").is_none());
}

#[test]
fn chained_string_definitions_expand() {
    let entries =
        parse_entries("@string{a = \"x\"}\n@string{b = a}\n@misc{m, note = b}").unwrap();
    let normalized = normalize_entries(entries);
    assert_eq!(normalized[0].get_field("note").map(String::as_str), Some("x"));
}

#[test]
fn text_ending_in_open_quote_or_brace_fails_to_parse() {
    assert!(parse_entries("@article{k, title = {").is_none());
    assert!(parse_entries("@article{k, title = \"").is_none());
}

#[test]
fn text_ending_in_multibyte_character_fails_to_parse() {
    assert!(parse_entries("@comment{é").is_none());
    assert!(parse_entries("@misc{m, note = {x}} é").is_none());
}
