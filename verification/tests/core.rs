use kibrarian::config::{strip_line_ending, Config};
use kibrarian::errors::{LibraryError, OpError};
use kibrarian::library::Library;
use kibrarian::paths::{extra_base, footprints_dir, library_base, path_join, symbols_dir};
use kibrarian::plan::{classify, footprint_copy_plan, symbol_copy_plan, CopyOp, FileKind};
use kibrarian::registry::{
    from_entries, load_installed, load_registry, search, Libraries, LoadOutcome,
};

fn lib(name: &str) -> Library {
    Library {
        name: name.to_string(),
        id: 7,
        url: format!("https://example.invalid/{}.git", name),
        symbols_path: "symbols".to_string(),
        footprints_path: "footprints".to_string(),
    }
}

fn catalog(names: &[&str]) -> Libraries {
    let entries: Vec<(String, Library)> =
        names.iter().map(|n| (n.to_string(), lib(n))).collect();
    from_entries(&entries).expect("valid entries")
}

#[test]
fn search_exact_match_only() {
    let reg = catalog(&["foo-lib"]);
    assert!(search(&reg, "foo").is_none());
    assert!(search(&reg, "foo-li").is_none());
    assert!(search(&reg, "foo-libx").is_none());
    let found = search(&reg, "foo-lib").expect("exact key matches");
    assert_eq!(found.name, "foo-lib");
    assert_eq!(found.id, 7);
    assert_eq!(found.url, "https://example.invalid/foo-lib.git");
}

#[test]
fn search_is_case_sensitive() {
    let reg = catalog(&["Alpha"]);
    assert!(search(&reg, "alpha").is_none());
    assert!(search(&reg, "Alpha").is_some());
}

#[test]
fn classify_by_extension() {
    assert_eq!(classify("a.lib"), FileKind::SymbolLib);
    assert_eq!(classify("b.dcm"), FileKind::SymbolDoc);
    assert_eq!(classify("d.pretty"), FileKind::FootprintDir);
    assert_eq!(classify("c.txt"), FileKind::Unclassified);
    assert_eq!(classify("noext"), FileKind::Unclassified);
    assert_eq!(classify(".lib"), FileKind::Unclassified);
    assert_eq!(classify("a.lib.txt"), FileKind::Unclassified);
    assert_eq!(classify("x.pretty.bak"), FileKind::Unclassified);
    assert_eq!(classify("two.dots.lib"), FileKind::SymbolLib);
}

#[test]
fn symbol_plan_selects_and_maps() {
    let names = vec!["a.lib".to_string(), "c.txt".to_string(), "b.dcm".to_string()];
    let ops = symbol_copy_plan(&names, "/src", "/dst");
    assert_eq!(
        ops,
        vec![
            CopyOp::File { src: "/src/a.lib".to_string(), dest: "/dst/a.lib".to_string() },
            CopyOp::File { src: "/src/b.dcm".to_string(), dest: "/dst/b.dcm".to_string() },
        ]
    );
}

#[test]
fn footprint_plan_selects_and_maps() {
    let names = vec!["d.pretty".to_string(), "e.txt".to_string()];
    let ops = footprint_copy_plan(&names, "/src", "/dst");
    assert_eq!(
        ops,
        vec![CopyOp::DirInside {
            src: "/src/d.pretty".to_string(),
            dest: "/dst/d.pretty".to_string(),
        }]
    );
}

#[test]
fn path_helpers_compose() {
    assert_eq!(path_join("a", "b"), "a/b");
    assert_eq!(extra_base("/home/u"), "/home/u/.kibrarian/extra");
    assert_eq!(library_base("/home/u", true), "/home/u/.kibrarian/libraries");
    assert_eq!(library_base("/home/u", false), "./libraries");
    assert_eq!(symbols_dir("/base", "mylib"), "/base/symbols/mylib");
    assert_eq!(footprints_dir("/base", "mylib"), "/base/footprints/mylib");
}

#[test]
fn config_new_paths() {
    let c = Config::new("/home/u");
    assert_eq!(c.libraries, "/home/u/.config/kibrarian/libraries.ron");
    assert_eq!(c.installed, "/home/u/.config/kibrarian/installed.ron");
    assert_eq!(c.fp_lib_table, "/home/u/projects/kibrarian/test/config/kicad/fp-lib-table");
    assert_eq!(c.sym_lib_table, "/home/u/projects/kibrarian/test/config/kicad/sym-lib-table");
}

#[test]
fn config_setters_replace_one_path() {
    let mut c = Config::new("/home/u");
    c.libraries("/custom/libraries.ron");
    assert_eq!(c.libraries, "/custom/libraries.ron");
    assert_eq!(c.installed, "/home/u/.config/kibrarian/installed.ron");
    c.installed("/custom/installed.ron");
    c.fp_lib_table("/custom/fp");
    c.sym_lib_table("/custom/sym");
    assert_eq!(c.installed, "/custom/installed.ron");
    assert_eq!(c.fp_lib_table, "/custom/fp");
    assert_eq!(c.sym_lib_table, "/custom/sym");
}

#[test]
fn wizard_answers_empty_keeps_defaults() {
    let mut c = Config::new("/home/u");
    c.apply_wizard_answers("", "", "", "");
    assert_eq!(c, Config::new("/home/u"));
}

#[test]
fn wizard_answers_replace_given_paths() {
    let mut c = Config::new("/home/u");
    c.apply_wizard_answers("/a.ron", "", "/b", "");
    assert_eq!(c.libraries, "/a.ron");
    assert_eq!(c.installed, "/home/u/.config/kibrarian/installed.ron");
    assert_eq!(c.fp_lib_table, "/b");
    assert_eq!(c.sym_lib_table, "/home/u/projects/kibrarian/test/config/kicad/sym-lib-table");
}

#[test]
fn strip_line_ending_variants() {
    assert_eq!(strip_line_ending("abc\r\n"), "abc");
    assert_eq!(strip_line_ending("abc\n"), "abc");
    assert_eq!(strip_line_ending("abc"), "abc");
    assert_eq!(strip_line_ending("abc\n\r\n"), "abc");
    assert_eq!(strip_line_ending("\r\n"), "");
    assert_eq!(strip_line_ending(""), "");
    assert_eq!(strip_line_ending("a\nb\n"), "a\nb");
}

#[test]
fn config_describe_lists_paths() {
    let mut c = Config::new("/h");
    c.libraries("/l");
    c.installed("/i");
    c.fp_lib_table("/f");
    c.sym_lib_table("/s");
    assert_eq!(
        c.describe(),
        "libraries.ron path: /l\ninstalled.ron path: /i\nfp-lib-table: /f\nsym-lib-table: /s"
    );
}

#[test]
fn library_display_line_format() {
    let l = lib("foo");
    assert_eq!(
        l.display_line(),
        "[foo]: https://example.invalid/foo.git\tsyms: symbols\tfps: footprints"
    );
}

#[test]
fn libraries_describe_lists_all() {
    let reg = catalog(&["a", "b"]);
    let text = reg.describe();
    assert_eq!(
        text,
        format!(
            "Official:\n{}\n{}\n",
            "[a]: https://example.invalid/a.git\tsyms: symbols\tfps: footprints",
            "[b]: https://example.invalid/b.git\tsyms: symbols\tfps: footprints"
        )
    );
}

#[test]
fn error_messages() {
    assert_eq!(LibraryError::LibraryNotFoundError.message(), "Library not found.");
    assert_eq!(LibraryError::LibraryInstalledError.message(), "Library already installed.");
    assert_eq!(LibraryError::LibraryNotInstalledError.message(), "Library is not installed.");
    assert_eq!(OpError::NotFound.message(), "File not found.");
    assert_eq!(OpError::ParseError.message(), "File content does not match the expected schema.");
    assert_eq!(
        OpError::Library(LibraryError::LibraryNotFoundError).message(),
        "Library not found."
    );
    assert_eq!(OpError::FetchError.message(), "Failed to fetch the library source.");
    assert_eq!(OpError::IoError.message(), "A filesystem operation failed.");
}

#[test]
fn from_entries_accepts_valid_entries() {
    let entries = vec![("x".to_string(), lib("x")), ("y".to_string(), lib("y"))];
    let libs = from_entries(&entries).expect("schema holds");
    assert_eq!(libs.len(), 2);
    assert!(libs.contains_name(&"x".to_string()));
    assert!(libs.contains_name(&"y".to_string()));
    assert!(!libs.contains_name(&"z".to_string()));
}

#[test]
fn from_entries_rejects_key_name_mismatch() {
    let entries = vec![("x".to_string(), lib("y"))];
    assert_eq!(from_entries(&entries), Err(OpError::ParseError));
}

#[test]
fn from_entries_rejects_duplicate_names() {
    let entries = vec![("x".to_string(), lib("x")), ("x".to_string(), lib("x"))];
    assert_eq!(from_entries(&entries), Err(OpError::ParseError));
}

#[test]
fn load_registry_missing_file_is_not_found() {
    assert_eq!(load_registry(LoadOutcome::Missing), Err(OpError::NotFound));
}

#[test]
fn load_registry_malformed_is_parse_error() {
    assert_eq!(load_registry(LoadOutcome::Malformed), Err(OpError::ParseError));
    let bad = vec![("x".to_string(), lib("y"))];
    assert_eq!(load_registry(LoadOutcome::Parsed(bad)), Err(OpError::ParseError));
}

#[test]
fn load_installed_missing_file_is_empty_record() {
    let record = load_installed(LoadOutcome::Missing).expect("first run");
    assert_eq!(record.len(), 0);
}

#[test]
fn load_installed_malformed_is_parse_error() {
    assert_eq!(load_installed(LoadOutcome::Malformed), Err(OpError::ParseError));
}

#[test]
fn insert_then_remove_restores_record() {
    let mut record = Libraries::new();
    record.insert(lib("a"));
    record.insert(lib("b"));
    let before = record.entries().clone();
    record.insert(lib("c"));
    let removed = record.remove(&"c".to_string()).expect("just inserted");
    assert_eq!(removed.name, "c");
    assert_eq!(record.entries(), &before);
}

#[test]
fn remove_absent_name_is_none() {
    let mut record = Libraries::new();
    record.insert(lib("a"));
    assert!(record.remove(&"b".to_string()).is_none());
    assert_eq!(record.len(), 1);
}
