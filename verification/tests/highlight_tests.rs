use hl::highlight;

const ROW1_PREFIX: &str = "<table><tbody><tr><td class=\"line\" data-line=\"1\"></td><td class=\"code\"><div>";
const TABLE_SUFFIX: &str = "</div></td></tr></tbody></table>";

fn count_occurrences(haystack: &str, needle: &str) -> usize {
    let mut count = 0;
    let mut rest = haystack;
    while let Some(pos) = rest.find(needle) {
        count += 1;
        rest = &rest[pos + needle.len()..];
    }
    count
}

#[test]
fn go_single_line_scenario() {
    let out = highlight("package main\n", "main.go", true, true).unwrap();
    assert!(out.starts_with(ROW1_PREFIX));
    assert!(out.ends_with(TABLE_SUFFIX));
    assert_eq!(count_occurrences(&out, "<tr>"), 1);
    assert!(out.contains("package"));
    assert!(out.contains("main"));
    assert!(out.contains("<span"));
}

#[test]
fn row_count_matches_line_segments() {
    let out = highlight("a\nb\nc", "f.txt", true, true).unwrap();
    assert_eq!(count_occurrences(&out, "<tr>"), 3);
    let out = highlight("a\nb\n", "f.txt", true, true).unwrap();
    assert_eq!(count_occurrences(&out, "<tr>"), 2);
    let out = highlight("\n", "f.txt", true, true).unwrap();
    assert_eq!(count_occurrences(&out, "<tr>"), 1);
}

#[test]
fn empty_input_renders_empty_table() {
    let out = highlight("", "f.txt", true, true).unwrap();
    assert_eq!(out, "<table><tbody></tbody></table>");
}

#[test]
fn identical_calls_yield_identical_output() {
    let a = highlight("fn main() {}\nlet x = 1;\n", "main.rs", false, true).unwrap();
    let b = highlight("fn main() {}\nlet x = 1;\n", "main.rs", false, true).unwrap();
    assert_eq!(a, b);
}

#[test]
fn long_line_rendered_verbatim_when_guard_active() {
    let long_line: String = "a".repeat(2500);
    let code = format!("{}\nfn x() {{}}\n", long_line);
    let out = highlight(&code, "x.rs", true, false).unwrap();
    let verbatim = format!("<div>{}\n</div>", long_line);
    assert!(out.contains(&verbatim));
    assert!(out.contains("<span"));
}

#[test]
fn long_line_highlighted_when_guard_disabled() {
    let long_line: String = "a".repeat(2500);
    let code = format!("{}\n", long_line);
    let out = highlight(&code, "x.rs", true, true).unwrap();
    let verbatim = format!("<div>{}</div>", long_line);
    assert!(!out.contains(&verbatim));
    assert!(out.contains("<span"));
}

#[test]
fn unrecognized_extension_falls_back_to_plain_text() {
    let out = highlight("zzz qqq\n", "file.zzzunknownext", true, true);
    let html = out.unwrap();
    assert!(html.starts_with("<table><tbody>"));
    assert!(html.ends_with("</tbody></table>"));
    assert_eq!(count_occurrences(&html, "<tr>"), 1);
}

#[test]
fn line_numbers_rendered_in_decimal() {
    let code = "a\n".repeat(12);
    let out = highlight(&code, "f.txt", true, true).unwrap();
    assert_eq!(count_occurrences(&out, "<tr>"), 12);
    assert!(out.contains("data-line=\"1\""));
    assert!(out.contains("data-line=\"10\""));
    assert!(out.contains("data-line=\"12\""));
    assert!(!out.contains("data-line=\"13\""));
}

#[test]
fn dark_theme_differs_from_light() {
    let light = highlight("package main\n", "main.go", true, true).unwrap();
    let dark = highlight("package main\n", "main.go", false, true).unwrap();
    assert_ne!(light, dark);
}

#[test]
fn binary_error_message() {
    assert_eq!(hl::HighlightError::Binary.message(), "cannot render binary file");
}
