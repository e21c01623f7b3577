use hl::binary::is_binary;
use hl::lines::split_lines;
use hl::pathsplit::{extension_str, file_name_str};
use hl::render::{highlight_ranges, LineRange};
use hl::resolve::resolve_syntax;
use syntect::highlighting::ThemeSet;
use syntect::parsing::SyntaxSet;

#[test]
fn split_lines_keeps_terminators() {
    let v = split_lines("a\nb");
    assert_eq!(v, vec!["a\n", "b"]);
    let v = split_lines("a\nb\n");
    assert_eq!(v, vec!["a\n", "b\n"]);
    let v = split_lines("");
    assert!(v.is_empty());
    let v = split_lines("\n\n");
    assert_eq!(v, vec!["\n", "\n"]);
}

#[test]
fn path_splitting() {
    assert_eq!(file_name_str("foo/bar.go"), "bar.go");
    assert_eq!(file_name_str("bar.go"), "bar.go");
    assert_eq!(file_name_str("a/b/"), "b");
    assert_eq!(file_name_str(""), "");
    // Current-directory and parent-directory components, as the standard
    // path splitter treats them.
    assert_eq!(file_name_str("Dockerfile/."), "Dockerfile");
    assert_eq!(file_name_str("a/./"), "a");
    assert_eq!(file_name_str("."), "");
    assert_eq!(file_name_str("a/.."), "");
    assert_eq!(file_name_str(".."), "");
    assert_eq!(file_name_str("..."), "...");
    assert_eq!(extension_str("bar.go"), "go");
    assert_eq!(extension_str("a.tar.gz"), "gz");
    assert_eq!(extension_str(".gitignore"), "");
    assert_eq!(extension_str("Dockerfile"), "");
}

#[test]
fn binary_detector_decisions() {
    assert!(!is_binary(b"hello world"));
    assert!(!is_binary(b""));
    // A JPEG header is sniffed as an image, hence binary.
    assert!(is_binary(&[0xFF, 0xD8, 0xFF, 0xE0, 0x00, 0x10, 0x4A, 0x46, 0x49, 0x46]));
    // Invalid UTF-8 with control bytes that no sniffer rule claims as text.
    assert!(is_binary(&[0x00, 0xFF, 0xFE, 0xFD, 0x01, 0x02]));
    // A shebang prefix is sniffed as text/plain even when the rest is not
    // valid UTF-8; its top-level category keeps it out of the binary class.
    assert!(!is_binary(&[0x23, 0x21, 0x20, 0xFF, 0xFF]));
}

#[test]
fn file_name_lookup_precedes_extension_lookup() {
    let ss = SyntaxSet::load_defaults_newlines();
    // "Makefile" is registered as a whole-file-name lookup key.
    let (sr, plain) = resolve_syntax(&ss, "path/to/Makefile", "");
    assert_eq!(sr.name, "Makefile");
    assert!(!plain);
    // A name that matches nothing resolves to the plain-text grammar.
    let (sr, plain) = resolve_syntax(&ss, "Dockerfile.zzznotregistered", "zzz qqq");
    assert_eq!(sr.name, "Plain Text");
    assert!(plain);
}

#[test]
fn first_line_lookup_comes_before_plain_text() {
    let ss = SyntaxSet::load_defaults_newlines();
    let (sr, plain) = resolve_syntax(&ss, "", "#!/bin/sh\necho hi\n");
    assert_eq!(sr.name, "Bourne Again Shell (bash)");
    assert!(!plain);
}

#[test]
fn ranges_partition_rows_with_overlap() {
    let ss = SyntaxSet::load_defaults_newlines();
    let ts = ThemeSet::load_defaults();
    let theme = &ts.themes["Solarized (light)"];
    let syntax = ss.find_syntax_by_extension("go").unwrap();
    let ranges = vec![
        LineRange { start: 1, end: 2 },
        LineRange { start: 2, end: 3 },
        LineRange { start: 5, end: 9 },
    ];
    let out = highlight_ranges("a\nb\nc\n", &ss, syntax, theme, true, &ranges);
    assert_eq!(out.len(), 3);
    assert_eq!(out[0].len(), 2);
    assert_eq!(out[1].len(), 2);
    assert_eq!(out[2].len(), 0);
    // Line 2 belongs to both overlapping ranges.
    assert_eq!(out[0][1], out[1][0]);
    assert!(out[0][0].contains("data-line=\"1\""));
    assert!(out[1][1].contains("data-line=\"3\""));
}

#[test]
fn legacy_extension_resolution() {
    let out = hl::highlight_legacy("go", "", "Solarized (light)", "package main\n").unwrap();
    assert!(out.data.starts_with("<table><tbody>"));
    assert!(out.data.contains("<span"));
    assert!(!out.plaintext);
}

#[test]
fn legacy_unknown_theme_is_classified() {
    let r = hl::highlight_legacy("go", "", "NoSuchTheme", "package main\n");
    assert!(matches!(r, Err(hl::LegacyError::InvalidTheme)));
}

#[test]
fn legacy_unresolvable_extension_is_classified() {
    let r = hl::highlight_legacy("zzznotregistered", "", "Solarized (dark)", "zzz qqq\n");
    assert!(matches!(r, Err(hl::LegacyError::InvalidExtension)));
}

#[test]
fn legacy_error_codes() {
    assert_eq!(hl::LegacyError::InvalidTheme.code(), "invalid_theme");
    assert_eq!(hl::LegacyError::InvalidExtension.code(), "invalid_extension");
    assert_eq!(hl::LegacyError::Binary.code(), "Binary");
}

#[test]
fn legacy_filepath_resolution() {
    let out = hl::highlight_legacy("", "main.go", "Solarized (dark)", "package main\n").unwrap();
    assert!(out.data.contains("<span"));
    assert!(!out.plaintext);
}
