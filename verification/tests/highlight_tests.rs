use md_render::{highlight_code, Color, StyledLine};

/// All text of a line, concatenated.
fn hl_line_text(line: &StyledLine) -> String {
    line.spans.iter().map(|s| s.content.as_str()).collect()
}

#[test]
fn known_language_returns_highlighted_lines() {
    let code = "let x = 42;";
    let lines = highlight_code(code, "rust");
    assert!(!lines.is_empty());
    let has_colored_span = lines[0]
        .spans
        .iter()
        .any(|s| matches!(s.style.fg, Some(Color::Rgb(..))));
    assert!(has_colored_span, "Expected syntax-highlighted spans");
}

#[test]
fn unknown_language_returns_plain_lines() {
    let code = "some text here";
    let lines = highlight_code(code, "notareallanguage");
    assert_eq!(lines.len(), 1);
    let text = hl_line_text(&lines[0]);
    assert!(text.contains("some text here"));
}

#[test]
fn empty_code_returns_empty() {
    let lines = highlight_code("", "rust");
    assert!(lines.is_empty() || lines.len() == 1);
}

#[test]
fn multiline_code_returns_multiple_lines() {
    let code = "fn main() {\n    println!(\"hello\");\n}";
    let lines = highlight_code(code, "rust");
    assert_eq!(lines.len(), 3);
}

#[test]
fn highlighted_lines_keep_code_text() {
    let code = "let x = 42;";
    let lines = highlight_code(code, "rust");
    assert_eq!(lines.len(), 1);
    // The indent plus the token texts reproduce the source line.
    assert_eq!(hl_line_text(&lines[0]), format!("    {}", code));
}

#[test]
fn plain_lines_are_indented() {
    let lines = highlight_code("a\nb", "notareallanguage");
    assert_eq!(lines.len(), 2);
    assert_eq!(hl_line_text(&lines[0]), "    a");
    assert_eq!(hl_line_text(&lines[1]), "    b");
}
