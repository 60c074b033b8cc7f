use md_render::{line_is_blank, render, Color, StyledLine};

/// All text of a line, concatenated.
fn line_text(line: &StyledLine) -> String {
    line.spans.iter().map(|s| s.content.as_str()).collect()
}

fn assert_line_contains(line: &StyledLine, text: &str) {
    let full = line_text(line);
    assert!(
        full.contains(text),
        "Expected line to contain {:?}, got {:?}",
        text,
        full
    );
}

fn line_has_bold(line: &StyledLine) -> bool {
    line.spans.iter().any(|s| s.style.bold)
}

fn line_has_italic(line: &StyledLine) -> bool {
    line.spans.iter().any(|s| s.style.italic)
}

fn line_has_strikethrough(line: &StyledLine) -> bool {
    line.spans.iter().any(|s| s.style.strikethrough)
}

fn line_has_fg(line: &StyledLine, color: Color) -> bool {
    line.spans.iter().any(|s| s.style.fg == Some(color))
}

// ── Block element tests ──

#[test]
fn heading_h1() {
    let lines = render("# Hello");
    assert_line_contains(&lines[0], "Hello");
    assert!(line_has_fg(&lines[0], Color::Cyan));
    assert!(line_has_bold(&lines[0]));
}

#[test]
fn heading_h2() {
    let lines = render("## World");
    assert_line_contains(&lines[0], "World");
    assert!(line_has_fg(&lines[0], Color::Green));
}

#[test]
fn heading_h3() {
    let lines = render("### Sub");
    assert_line_contains(&lines[0], "Sub");
    assert!(line_has_fg(&lines[0], Color::Yellow));
}

#[test]
fn paragraph_spacing() {
    let lines = render("First paragraph.\n\nSecond paragraph.");
    let texts: Vec<String> = lines.iter().map(line_text).collect();
    assert!(texts.contains(&"First paragraph.".to_string()));
    assert!(texts.contains(&"Second paragraph.".to_string()));
    let first_idx = texts.iter().position(|t| t == "First paragraph.").unwrap();
    let blank_idx = first_idx + 1;
    assert!(texts[blank_idx].trim().is_empty());
}

#[test]
fn code_block_plain() {
    let lines = render("```\nhello world\n```");
    let all_text: String = lines.iter().map(line_text).collect::<Vec<_>>().join("\n");
    assert!(all_text.contains("hello world"));
}

#[test]
fn code_block_with_language() {
    let lines = render("```rust\nlet x = 1;\n```");
    let all_text: String = lines.iter().map(line_text).collect::<Vec<_>>().join("\n");
    assert!(all_text.contains("let x = 1;"));
    assert!(all_text.contains("rust"));
}

#[test]
fn blockquote_basic() {
    let lines = render("> quoted text");
    let all_text: String = lines.iter().map(line_text).collect::<Vec<_>>().join("\n");
    assert!(all_text.contains("▌"));
    assert!(all_text.contains("quoted text"));
}

#[test]
fn unordered_list() {
    let lines = render("- first\n- second\n- third");
    let texts: Vec<String> = lines.iter().map(line_text).collect();
    assert!(texts.iter().any(|t| t.contains("•") && t.contains("first")));
    assert!(texts.iter().any(|t| t.contains("•") && t.contains("second")));
    assert!(texts.iter().any(|t| t.contains("•") && t.contains("third")));
}

#[test]
fn ordered_list() {
    let lines = render("1. alpha\n2. beta\n3. gamma");
    let texts: Vec<String> = lines.iter().map(line_text).collect();
    assert!(texts.iter().any(|t| t.contains("1.") && t.contains("alpha")));
    assert!(texts.iter().any(|t| t.contains("2.") && t.contains("beta")));
    assert!(texts.iter().any(|t| t.contains("3.") && t.contains("gamma")));
}

#[test]
fn task_list() {
    let lines = render("- [x] done\n- [ ] todo");
    let texts: Vec<String> = lines.iter().map(line_text).collect();
    assert!(texts.iter().any(|t| t.contains("☑") && t.contains("done")));
    assert!(texts.iter().any(|t| t.contains("☐") && t.contains("todo")));
}

#[test]
fn horizontal_rule() {
    let lines = render("above\n\n---\n\nbelow");
    let texts: Vec<String> = lines.iter().map(line_text).collect();
    assert!(texts.iter().any(|t| t.contains("─")));
}

#[test]
fn table_basic() {
    let lines = render("| Name | Age |\n|------|-----|\n| Alice | 30 |");
    let all_text: String = lines.iter().map(line_text).collect::<Vec<_>>().join("\n");
    assert!(all_text.contains("Name"));
    assert!(all_text.contains("Alice"));
    assert!(all_text.contains("┌"));
    assert!(all_text.contains("┘"));
}

// ── Inline element tests ──

#[test]
fn bold_text() {
    let lines = render("some **bold** text");
    assert!(line_has_bold(&lines[0]));
}

#[test]
fn italic_text() {
    let lines = render("some *italic* text");
    assert!(line_has_italic(&lines[0]));
}

#[test]
fn strikethrough_text() {
    let lines = render("some ~~struck~~ text");
    assert!(line_has_strikethrough(&lines[0]));
}

#[test]
fn inline_code() {
    let lines = render("use `code` here");
    let text = line_text(&lines[0]);
    assert!(text.contains("`code`"));
    assert!(lines[0]
        .spans
        .iter()
        .any(|s| s.style.fg == Some(Color::Magenta)));
}

#[test]
fn link() {
    let lines = render("[click](https://example.com)");
    let text = line_text(&lines[0]);
    assert!(text.contains("click"));
    assert!(text.contains("https://example.com"));
    assert!(line_has_fg(&lines[0], Color::Blue));
}

// ── Nesting tests ──

#[test]
fn bold_inside_heading() {
    let lines = render("# Hello **world**");
    assert_line_contains(&lines[0], "Hello");
    assert_line_contains(&lines[0], "world");
    assert!(line_has_bold(&lines[0]));
}

#[test]
fn nested_lists() {
    let input = "- outer\n  - inner\n    - deepest";
    let lines = render(input);
    let texts: Vec<String> = lines.iter().map(line_text).collect();
    assert!(texts.iter().any(|t| t.contains("outer")));
    assert!(texts.iter().any(|t| t.contains("inner")));
    assert!(texts.iter().any(|t| t.contains("deepest")));
}

// ── Spacing tests ──

#[test]
fn no_double_blank_lines() {
    let lines = render("# Title\n\nParagraph\n\n---\n\nMore text");
    let mut consecutive_blanks = 0;
    for line in &lines {
        if line_is_blank(line) {
            consecutive_blanks += 1;
            assert!(consecutive_blanks <= 1, "Found consecutive blank lines");
        } else {
            consecutive_blanks = 0;
        }
    }
}

// ── Edge case tests ──

#[test]
fn empty_input() {
    let lines = render("");
    assert_eq!(lines.len(), 1);
}

#[test]
fn whitespace_only() {
    let lines = render("   \n  \n   ");
    assert_eq!(lines.len(), 1);
}

// ── Marker and numbering tests ──

#[test]
fn unordered_bullet_exact() {
    let lines = render("- first");
    assert_eq!(line_text(&lines[0]), "• first");
}

#[test]
fn ordered_list_start_value() {
    let lines = render("5. five\n6. six");
    let texts: Vec<String> = lines.iter().map(line_text).collect();
    assert!(texts.contains(&"5. five".to_string()));
    assert!(texts.contains(&"6. six".to_string()));
}

#[test]
fn ordered_large_start() {
    let lines = render("999. big");
    assert_eq!(line_text(&lines[0]), "999. big");
}

#[test]
fn bullet_palette_cycles() {
    let input = "- a\n  - b\n    - c\n      - d";
    let lines = render(input);
    let texts: Vec<String> = lines.iter().map(line_text).collect();
    assert!(texts.iter().any(|t| t.contains("•") && t.contains("a")));
    assert!(texts.iter().any(|t| t.contains("◦") && t.contains("b")));
    assert!(texts.iter().any(|t| t.contains("▪") && t.contains("c")));
    // Depth three wraps back to the first glyph of the palette.
    assert!(texts.iter().any(|t| t.contains("•") && t.contains("d")));
}

#[test]
fn six_level_list_nesting() {
    let input = "- l0\n  - l1\n    - l2\n      - l3\n        - l4\n          - l5";
    let lines = render(input);
    let texts: Vec<String> = lines.iter().map(line_text).collect();
    for label in ["l0", "l1", "l2", "l3", "l4", "l5"] {
        assert!(texts.iter().any(|t| t.contains(label)), "missing {}", label);
    }
}

#[test]
fn rule_is_forty_dashes() {
    let lines = render("---");
    assert_eq!(line_text(&lines[0]), "─".repeat(40));
}

#[test]
fn link_url_suffix() {
    let lines = render("[click](https://example.com)");
    let text = line_text(&lines[0]);
    assert!(text.contains(" (https://example.com)"));
}

#[test]
fn image_alt_brackets() {
    let lines = render("![a picture](image.png)");
    let text = line_text(&lines[0]);
    assert!(text.contains("[img: "));
    assert!(text.contains("a picture"));
    assert!(text.contains("]"));
}

#[test]
fn blockquote_nesting_repeats_glyph() {
    let lines = render("> > deep");
    let text = line_text(&lines[0]);
    assert!(text.contains("▌ ▌ "));
    assert!(text.contains("deep"));
}

#[test]
fn code_label_line_exact() {
    let lines = render("```rust\nlet x = 1;\n```");
    let texts: Vec<String> = lines.iter().map(line_text).collect();
    assert!(texts.contains(&"    rust".to_string()));
}

// ── Table geometry tests ──

#[test]
fn table_border_widths() {
    let lines = render("| Name | Age |\n|------|-----|\n| Alice | 30 |");
    let texts: Vec<String> = lines.iter().map(line_text).collect();
    // Column widths: longest cell plus two — "Alice" gives 7, "Age" gives 5.
    let top = texts.iter().find(|t| t.contains("┌")).unwrap();
    assert_eq!(top.as_str(), "┌───────┬─────┐");
    let bottom = texts.iter().find(|t| t.contains("└")).unwrap();
    assert_eq!(bottom.as_str(), "└───────┴─────┘");
}

#[test]
fn table_border_junctions() {
    let lines = render("| a | b | c |\n|---|---|---|\n| 1 | 2 | 3 |");
    let texts: Vec<String> = lines.iter().map(line_text).collect();
    // Three columns: four junction glyphs on each border line.
    let top = texts.iter().find(|t| t.contains("┌")).unwrap();
    let top_junctions = top.chars().filter(|c| "┌┬┐".contains(*c)).count();
    assert_eq!(top_junctions, 4);
    let mid = texts.iter().find(|t| t.contains("├")).unwrap();
    let mid_junctions = mid.chars().filter(|c| "├┼┤".contains(*c)).count();
    assert_eq!(mid_junctions, 4);
    let bottom = texts.iter().find(|t| t.contains("└")).unwrap();
    let bottom_junctions = bottom.chars().filter(|c| "└┴┘".contains(*c)).count();
    assert_eq!(bottom_junctions, 4);
}

#[test]
fn table_min_width() {
    let lines = render("| a |\n|---|\n| b |");
    let texts: Vec<String> = lines.iter().map(line_text).collect();
    // A one-character column still spans at least three cells of width.
    let top = texts.iter().find(|t| t.contains("┌")).unwrap();
    assert_eq!(top.as_str(), "┌───┐");
}

// ── Round-trip test ──

#[test]
fn round_trip_plain_paragraph() {
    let first = render("hello world");
    let first_texts: Vec<String> = first.iter().map(line_text).collect();
    assert_eq!(first_texts, vec!["hello world".to_string()]);
    // Rendering the styling-stripped output reproduces the same text.
    let again = render(&first_texts.join("\n"));
    let again_texts: Vec<String> = again.iter().map(line_text).collect();
    assert_eq!(first_texts, again_texts);
}
