use jlic::document::{read_to_toml, section};
use jlic::error::LicenseError;
use jlic::files::{
    default_log_filter, flag_enabled, fresh_file_step, get_crate_root, license_filename, path_in,
    PathKind, WriteAction,
};
use jlic::metadata::{
    author_texts, extract_package_info, format_authors, show_authors, show_text, PackageInfo,
};
use jlic::render::render_license;
use jlic::run::Phase;
use jlic::text::{dequote_str, join_authors};
use jlic::update::{print_document, update_document, update_license_info};

fn parse(text: &str) -> toml::Value {
    read_to_toml(text).unwrap()
}

fn names(list: &[&str]) -> Vec<String> {
    list.iter().map(|s| s.to_string()).collect()
}

const TEMPLATE: &str =
    "# {{name}} {{version}}\nCopyright (c) {{year}} {{authors}}\n{{name}} is licensed.\n";

#[test]
fn dequote_strips_one_pair() {
    assert_eq!(dequote_str("\"demo\"".to_string()), "demo");
    assert_eq!(dequote_str("\"\"".to_string()), "");
    assert_eq!(dequote_str("\"\"a\"\"".to_string()), "\"a\"");
}

#[test]
fn dequote_leaves_unquoted_text() {
    assert_eq!(dequote_str("demo".to_string()), "demo");
    assert_eq!(dequote_str("".to_string()), "");
    assert_eq!(dequote_str("\"".to_string()), "\"");
    assert_eq!(dequote_str("\"demo".to_string()), "\"demo");
    assert_eq!(dequote_str("demo\"".to_string()), "demo\"");
    assert_eq!(dequote_str("42".to_string()), "42");
}

#[test]
fn dequote_counts_characters_not_bytes() {
    assert_eq!(dequote_str("\"Zoë Ångström\"".to_string()), "Zoë Ångström");
}

#[test]
fn join_one_author() {
    assert_eq!(join_authors(&names(&["\"Ann Lee\""])), "Ann Lee");
}

#[test]
fn join_two_authors() {
    assert_eq!(join_authors(&names(&["\"Ann Lee\"", "\"Bo Kim\""])), "Ann Lee and Bo Kim");
}

#[test]
fn join_three_authors() {
    assert_eq!(join_authors(&names(&["\"A1\"", "\"A2\"", "\"A3\""])), "A1, A2 and A3");
}

#[test]
fn join_five_authors() {
    assert_eq!(
        join_authors(&names(&["\"A1\"", "\"A2\"", "\"A3\"", "\"A4\"", "\"A5\""])),
        "A1, A2, A3, A4 and A5"
    );
}

#[test]
fn join_no_author() {
    assert_eq!(join_authors(&Vec::new()), "");
}

#[test]
fn show_text_defaults_to_unknown() {
    assert_eq!(show_text(None), "Unknown");
    assert_eq!(show_text(Some("\"demo\"".to_string())), "demo");
}

#[test]
fn show_authors_defaults_to_unknown() {
    assert_eq!(show_authors(None), "Unknown");
    assert_eq!(show_authors(Some(names(&["\"Ann Lee\"", "\"Bo Kim\""]))), "Ann Lee and Bo Kim");
}

#[test]
fn from_fields_defaults_each_field_alone() {
    let all = PackageInfo::from_fields(None, None, None);
    assert_eq!(all.name, "Unknown");
    assert_eq!(all.version, "Unknown");
    assert_eq!(all.authors, "Unknown");
    let no_name =
        PackageInfo::from_fields(None, Some("\"1.0\"".to_string()), Some(names(&["\"A\""])));
    assert_eq!(no_name.name, "Unknown");
    assert_eq!(no_name.version, "1.0");
    assert_eq!(no_name.authors, "A");
    let no_version =
        PackageInfo::from_fields(Some("\"n\"".to_string()), None, Some(names(&["\"A\""])));
    assert_eq!(no_version.name, "n");
    assert_eq!(no_version.version, "Unknown");
    assert_eq!(no_version.authors, "A");
    let no_authors =
        PackageInfo::from_fields(Some("\"n\"".to_string()), Some("\"1.0\"".to_string()), None);
    assert_eq!(no_authors.name, "n");
    assert_eq!(no_authors.version, "1.0");
    assert_eq!(no_authors.authors, "Unknown");
}

#[test]
fn read_rejects_broken_text() {
    assert_eq!(read_to_toml("[package").unwrap_err(), LicenseError::ManifestParseError);
    assert_eq!(read_to_toml("name = ").unwrap_err(), LicenseError::ManifestParseError);
}

#[test]
fn read_accepts_a_manifest() {
    let doc = parse("[package]\nname = \"demo\"\n");
    assert_eq!(doc.get("package").and_then(|p| p.get("name")).and_then(|n| n.as_str()), Some("demo"));
}

#[test]
fn section_finds_the_package_table() {
    let doc = parse("[package]\nname = \"demo\"\nversion = \"0.1.0\"\n");
    let package = section(&doc, "package").unwrap();
    assert_eq!(package.len(), 2);
    assert_eq!(package.get("name").and_then(|n| n.as_str()), Some("demo"));
    assert!(section(&doc, "dependencies").is_none());
    assert!(section(&parse("package = 3\n"), "package").is_none());
    assert!(section(&toml::Value::Integer(3), "package").is_none());
}

#[test]
fn author_texts_keep_the_encoded_form() {
    let doc = parse("authors = [\"Ann Lee\", \"Bo Kim\"]\n");
    let texts = author_texts(doc.get("authors").cloned()).unwrap();
    assert_eq!(texts, vec!["\"Ann Lee\"".to_string(), "\"Bo Kim\"".to_string()]);
    assert!(author_texts(None).is_none());
    assert!(author_texts(Some(toml::Value::from("Ann Lee"))).is_none());
}

#[test]
fn format_authors_of_each_length() {
    let one = parse("authors = [\"Ann Lee\"]\n");
    assert_eq!(format_authors(one.get("authors").cloned()), "Ann Lee");
    let two = parse("authors = [\"Ann Lee\", \"Bo Kim\"]\n");
    assert_eq!(format_authors(two.get("authors").cloned()), "Ann Lee and Bo Kim");
    let three = parse("authors = [\"Ann Lee\", \"Bo Kim\", \"Cy Orr\"]\n");
    assert_eq!(format_authors(three.get("authors").cloned()), "Ann Lee, Bo Kim and Cy Orr");
    let none = parse("authors = []\n");
    assert_eq!(format_authors(none.get("authors").cloned()), "");
}

#[test]
fn format_authors_without_a_list() {
    assert_eq!(format_authors(None), "Unknown");
    assert_eq!(format_authors(Some(toml::Value::from("Ann Lee"))), "Unknown");
    assert_eq!(format_authors(Some(toml::Value::Integer(7))), "Unknown");
}

#[test]
fn extract_reads_all_fields() {
    let doc = parse(
        "[package]\nname = \"demo\"\nversion = \"0.1.0\"\nauthors = [\"Ann Lee\", \"Bo Kim\"]\n",
    );
    let info = extract_package_info(&doc).unwrap();
    assert_eq!(info.name, "demo");
    assert_eq!(info.version, "0.1.0");
    assert_eq!(info.authors, "Ann Lee and Bo Kim");
}

#[test]
fn extract_defaults_missing_name() {
    let doc = parse("[package]\nversion = \"0.1.0\"\nauthors = [\"Ann Lee\"]\n");
    let info = extract_package_info(&doc).unwrap();
    assert_eq!(info.name, "Unknown");
    assert_eq!(info.version, "0.1.0");
    assert_eq!(info.authors, "Ann Lee");
}

#[test]
fn extract_defaults_missing_version() {
    let doc = parse("[package]\nname = \"demo\"\nauthors = [\"Ann Lee\"]\n");
    let info = extract_package_info(&doc).unwrap();
    assert_eq!(info.name, "demo");
    assert_eq!(info.version, "Unknown");
    assert_eq!(info.authors, "Ann Lee");
}

#[test]
fn extract_defaults_missing_authors() {
    let doc = parse("[package]\nname = \"demo\"\nversion = \"0.1.0\"\n");
    let info = extract_package_info(&doc).unwrap();
    assert_eq!(info.name, "demo");
    assert_eq!(info.version, "0.1.0");
    assert_eq!(info.authors, "Unknown");
}

#[test]
fn extract_defaults_everything() {
    let doc = parse("[package]\n");
    let info = extract_package_info(&doc).unwrap();
    assert_eq!(info.name, "Unknown");
    assert_eq!(info.version, "Unknown");
    assert_eq!(info.authors, "Unknown");
}

#[test]
fn extract_takes_a_scalar_as_it_is_written() {
    let doc = parse("[package]\nname = 7\nversion = true\nauthors = \"Ann Lee\"\n");
    let info = extract_package_info(&doc).unwrap();
    assert_eq!(info.name, "7");
    assert_eq!(info.version, "true");
    assert_eq!(info.authors, "Unknown");
}

#[test]
fn extract_needs_a_package_table() {
    assert_eq!(
        extract_package_info(&parse("[dependencies]\n")).unwrap_err(),
        LicenseError::MalformedManifest
    );
    assert_eq!(
        extract_package_info(&parse("package = \"demo\"\n")).unwrap_err(),
        LicenseError::MalformedManifest
    );
}

#[test]
fn render_fills_every_placeholder() {
    let text = render_license(TEMPLATE, "demo", "0.1.0", "2024", "Ann Lee and Bo Kim");
    assert_eq!(
        text,
        "# demo 0.1.0\nCopyright (c) 2024 Ann Lee and Bo Kim\ndemo is licensed.\n"
    );
    assert!(!text.contains("{{"));
}

#[test]
fn render_leaves_other_placeholders() {
    assert_eq!(
        render_license("{{name}} {{owner}} {{ name }}", "demo", "1", "2024", "A"),
        "demo {{owner}} {{ name }}"
    );
}

#[test]
fn render_does_not_fill_what_it_put_in() {
    assert_eq!(render_license("{{name}}", "{{version}}", "1", "2024", "A"), "{{version}}");
    assert_eq!(
        render_license("{{version}} {{name}}", "{{version}}", "1", "2024", "{{name}}"),
        "1 {{version}}"
    );
    assert_eq!(
        render_license("{{authors}} {{year}}", "n", "1", "{{authors}}", "{{year}}"),
        "{{year}} {{authors}}"
    );
    assert_eq!(render_license("{{name}}name}}", "{{", "1", "2024", "A"), "{{name}}");
}

#[test]
fn render_takes_matches_from_the_left() {
    assert_eq!(render_license("{{{{name}}}}", "x", "1", "2024", "A"), "{{x}}");
    assert_eq!(render_license("", "x", "1", "2024", "A"), "");
    assert_eq!(render_license("{{name}", "x", "1", "2024", "A"), "{{name}");
}

#[test]
fn render_fills_a_placeholder_each_time_it_stands() {
    assert_eq!(
        render_license("{{name}}{{name}} {{year}}-{{year}}", "demo", "1", "2024", "A"),
        "demodemo 2024-2024"
    );
    assert_eq!(render_license("Zoë {{authors}} ©", "n", "1", "2024", "Åsa"), "Zoë Åsa ©");
}

fn no_such_date() -> toml::Value {
    toml::Value::Datetime(toml::value::Datetime {
        date: Some(toml::value::Date { year: 2024, month: 13, day: 1 }),
        time: None,
        offset: None,
    })
}

#[test]
fn a_value_without_a_text_is_unknown() {
    let odd = toml::Value::Array(vec![no_such_date()]);
    assert!(author_texts(Some(toml::Value::Array(vec![toml::Value::from("Ann"), odd.clone()])))
        .is_none());
    assert_eq!(
        format_authors(Some(toml::Value::Array(vec![toml::Value::from("Ann"), odd.clone()]))),
        "Unknown"
    );
    let mut package = toml::map::Map::new();
    package.insert("name".to_string(), odd);
    package.insert("version".to_string(), toml::Value::from("0.1.0"));
    let mut top = toml::map::Map::new();
    top.insert("package".to_string(), toml::Value::Table(package));
    let info = extract_package_info(&toml::Value::Table(top)).unwrap();
    assert_eq!(info.name, "Unknown");
    assert_eq!(info.version, "0.1.0");
    assert_eq!(info.authors, "Unknown");
}

#[test]
fn update_replaces_license_by_license_file() {
    let doc = parse("[package]\nname = \"demo\"\nlicense = \"MIT\"\n\n[dependencies]\nlog = \"0.4\"\n");
    let updated = update_document(doc, "LICENSE.md").unwrap();
    let package = updated.get("package").unwrap();
    assert!(package.get("license").is_none());
    assert_eq!(package.get("license-file").and_then(|v| v.as_str()), Some("LICENSE.md"));
    assert_eq!(package.get("name").and_then(|v| v.as_str()), Some("demo"));
    assert_eq!(
        updated.get("dependencies").and_then(|d| d.get("log")).and_then(|v| v.as_str()),
        Some("0.4")
    );
}

#[test]
fn update_overwrites_an_old_license_file() {
    let doc = parse("[package]\nlicense-file = \"OLD.md\"\n");
    let updated = update_document(doc, "JLICENSE.md").unwrap();
    let package = updated.get("package").unwrap().as_table().unwrap();
    assert_eq!(package.len(), 1);
    assert_eq!(package.get("license-file").and_then(|v| v.as_str()), Some("JLICENSE.md"));
}

#[test]
fn update_twice_changes_nothing_more() {
    let doc = parse("[package]\nname = \"demo\"\nlicense = \"MIT\"\n");
    let once = update_document(doc, "LICENSE.md").unwrap();
    let twice = update_document(once.clone(), "LICENSE.md").unwrap();
    assert_eq!(once, twice);
}

#[test]
fn update_needs_a_package_table() {
    assert_eq!(
        update_document(parse("[dependencies]\n"), "LICENSE.md").unwrap_err(),
        LicenseError::MalformedManifest
    );
    assert_eq!(
        update_document(parse("package = 1\n"), "LICENSE.md").unwrap_err(),
        LicenseError::MalformedManifest
    );
    assert_eq!(
        update_document(toml::Value::Boolean(true), "LICENSE.md").unwrap_err(),
        LicenseError::MalformedManifest
    );
}

#[test]
fn update_text_of_a_manifest() {
    let text = update_license_info("[package]\nname = \"demo\"\nlicense = \"MIT\"\n", "LICENSE.md")
        .unwrap();
    assert_eq!(text, "[package]\nlicense-file = \"LICENSE.md\"\nname = \"demo\"\n");
}

#[test]
fn update_text_reports_each_failure() {
    assert_eq!(
        update_license_info("[package", "LICENSE.md").unwrap_err(),
        LicenseError::ManifestParseError
    );
    assert_eq!(
        update_license_info("name = \"demo\"\n", "LICENSE.md").unwrap_err(),
        LicenseError::MalformedManifest
    );
}

#[test]
fn print_needs_a_table() {
    assert_eq!(
        print_document(&toml::Value::Integer(3)).unwrap_err(),
        LicenseError::SerializationError
    );
    assert_eq!(
        print_document(&toml::Value::from("demo")).unwrap_err(),
        LicenseError::SerializationError
    );
}

#[test]
fn print_a_document() {
    let doc = parse("b = 1\na = \"x\"\n[package]\nname = \"demo\"\n");
    assert_eq!(print_document(&doc).unwrap(), "a = \"x\"\nb = 1\n\n[package]\nname = \"demo\"\n");
}

#[test]
fn texts_of_values() {
    let doc = parse("a = \"x\"\nb = 12\nc = [1, 2]\nd = false\n");
    let texts = author_texts(Some(toml::Value::Array(vec![
        doc.get("a").cloned().unwrap(),
        doc.get("b").cloned().unwrap(),
        doc.get("d").cloned().unwrap(),
    ])))
    .unwrap();
    assert_eq!(texts, vec!["\"x\"".to_string(), "12".to_string(), "false".to_string()]);
}

#[test]
fn end_to_end_demo() {
    let manifest = "[package]\nname = \"demo\"\nversion = \"0.1.0\"\nauthors = [\"Ann Lee\", \"Bo Kim\"]\nlicense = \"MIT\"\n";
    let info = extract_package_info(&parse(manifest)).unwrap();
    let filename = license_filename(false);
    assert_eq!(filename, "LICENSE.md");
    let license = render_license(TEMPLATE, &info.name, &info.version, "2024", &info.authors);
    assert!(license.contains("demo"));
    assert!(license.contains("0.1.0"));
    assert!(license.contains("Ann Lee and Bo Kim"));
    assert!(license.contains("2024"));
    let rewritten = parse(&update_license_info(manifest, filename).unwrap());
    let package = rewritten.get("package").unwrap();
    assert!(package.get("license").is_none());
    assert_eq!(package.get("license-file").and_then(|v| v.as_str()), Some("LICENSE.md"));
    assert_eq!(package.get("version").and_then(|v| v.as_str()), Some("0.1.0"));
    assert_eq!(package.get("authors").and_then(|v| v.as_array()).map(|a| a.len()), Some(2));
}

#[test]
fn fresh_file_on_an_empty_path() {
    assert_eq!(fresh_file_step(PathKind::Missing, false), Ok(WriteAction::Create));
    assert_eq!(fresh_file_step(PathKind::Missing, true), Ok(WriteAction::Create));
}

#[test]
fn fresh_file_discards_the_old_file_once() {
    assert_eq!(fresh_file_step(PathKind::File, false), Ok(WriteAction::RemoveOld));
    assert_eq!(fresh_file_step(PathKind::File, true), Err(LicenseError::IOError));
}

#[test]
fn fresh_file_refuses_a_directory() {
    assert_eq!(fresh_file_step(PathKind::Other, false), Err(LicenseError::PathConflict));
    assert_eq!(fresh_file_step(PathKind::Other, true), Err(LicenseError::PathConflict));
}

#[test]
fn crate_root_is_the_nearest_manifest() {
    assert_eq!(get_crate_root(&vec![true]), Ok(0));
    assert_eq!(get_crate_root(&vec![false, true, false, true]), Ok(1));
    assert_eq!(get_crate_root(&vec![false, false, false, false, true]), Ok(4));
}

#[test]
fn crate_root_missing() {
    assert_eq!(get_crate_root(&vec![false, false, false]), Err(LicenseError::ManifestNotFound));
    assert_eq!(get_crate_root(&Vec::new()), Err(LicenseError::ManifestNotFound));
}

#[test]
fn flags_and_names() {
    assert!(!flag_enabled(None));
    assert!(!flag_enabled(Some(0)));
    assert!(flag_enabled(Some(1)));
    assert!(flag_enabled(Some(3)));
    assert_eq!(license_filename(true), "JLICENSE.md");
    assert_eq!(license_filename(false), "LICENSE.md");
    assert_eq!(default_log_filter(true), "debug");
    assert_eq!(default_log_filter(false), "warn");
    assert_eq!(path_in("/home/ann/demo", "LICENSE.md"), "/home/ann/demo/LICENSE.md");
}

#[test]
fn phases_of_a_full_run() {
    let mut phase = Phase::Start;
    let mut seen = Vec::new();
    for _ in 0..7 {
        phase = phase.next(true, true);
        seen.push(phase);
    }
    assert_eq!(
        seen,
        vec![
            Phase::Located,
            Phase::Parsed,
            Phase::Extracted,
            Phase::Rendered,
            Phase::Written,
            Phase::Updated,
            Phase::Done
        ]
    );
}

#[test]
fn phases_after_the_license_is_written() {
    assert_eq!(Phase::Written.next(true, false), Phase::UpdateSkipped);
    assert_eq!(Phase::Written.next(false, false), Phase::UpdateSkipped);
    assert_eq!(Phase::Written.next(false, true), Phase::UpdateFailed);
    assert_eq!(Phase::UpdateFailed.next(false, true), Phase::Done);
    assert_eq!(Phase::UpdateSkipped.next(true, false), Phase::Done);
    assert_eq!(Phase::Done.next(false, true), Phase::Done);
}

#[test]
fn phases_abort_before_the_license_is_written() {
    assert_eq!(Phase::Start.next(false, true), Phase::Aborted);
    assert_eq!(Phase::Located.next(false, true), Phase::Aborted);
    assert_eq!(Phase::Parsed.next(false, false), Phase::Aborted);
    assert_eq!(Phase::Extracted.next(false, false), Phase::Aborted);
    assert_eq!(Phase::Rendered.next(false, true), Phase::Aborted);
    assert_eq!(Phase::Aborted.next(true, true), Phase::Aborted);
}

#[test]
fn errors_and_their_messages() {
    assert_eq!(LicenseError::ManifestNotFound.message(), "Cargo.toml not found in path");
    assert_eq!(
        LicenseError::ManifestParseError.message(),
        "Failed to parse TOML value from string"
    );
    assert_eq!(LicenseError::MalformedManifest.message(), "Cargo.toml has no package table");
    assert!(LicenseError::PathConflict.message().contains("not a file"));
    assert_eq!(LicenseError::IOError.message(), "File operation failed");
    assert_eq!(LicenseError::SerializationError.message(), "Failed to serialize the manifest");
}
