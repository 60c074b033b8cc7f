//! The code-highlight adapter.
//!
//! A code block's raw text and language tag go to the highlighting
//! collaborator; its per-token colors come back as plain RGB regions, which
//! verified code assembles into indented spans over a uniform dark
//! background. An unknown language falls back to plain dimmed text.

use vstd::prelude::*;

use crate::renderer::{code_bg, muted_style};
use crate::style::{
    lines_view, spans_view, Color, SpanView, Style, StyledLine, StyledSpan,
};
use crate::text::{spec_lines, split_lines};

verus! {

broadcast use crate::style::group_view_lemmas;

/// Mathematical image of an [`HlRegion`].
pub ghost struct RegionView {
    pub red: u8,
    pub green: u8,
    pub blue: u8,
    pub text: Seq<char>,
}

/// One colored region of a highlighted code line: an RGB foreground color
/// and the text it covers.
pub struct HlRegion {
    pub red: u8,
    pub green: u8,
    pub blue: u8,
    pub text: String,
}

impl View for HlRegion {
    type V = RegionView;

    open spec fn view(&self) -> RegionView {
        RegionView { red: self.red, green: self.green, blue: self.blue, text: self.text@ }
    }
}

/// The views of one line's regions.
pub open spec fn region_row_view(v: Seq<HlRegion>) -> Seq<RegionView> {
    v.map(|i: int, r: HlRegion| r@)
}

/// The views of a whole highlight result.
pub open spec fn region_rows_view(v: Seq<Vec<HlRegion>>) -> Seq<Seq<RegionView>> {
    v.map(|i: int, r: Vec<HlRegion>| region_row_view(r@))
}

/// The text of a line's regions, concatenated.
pub open spec fn regions_text(rs: Seq<RegionView>) -> Seq<char>
    decreases rs.len(),
{
    if rs.len() == 0 {
        Seq::empty()
    } else {
        regions_text(rs.drop_last()) + rs.last().text
    }
}

/// What the highlighting collaborator returns for a code body and language
/// tag: `None` when the tag resolves to no bundled syntax or highlighting
/// fails, else one region list per line of the code.
pub uninterp spec fn syntect_lines_of(code: Seq<char>, lang: Seq<char>) -> Option<
    Seq<Seq<RegionView>>,
>;

/// Relies on syntect's `SyntaxSet::find_syntax_by_token` and
/// `HighlightLines::highlight_line` over the bundled default syntax set and
/// the `base16-eighties.dark` theme of the bundled default theme set: the
/// result is a function of the code and language alone, holds one region
/// list per input line, and each line's regions concatenate to that line's
/// text (syntect documents that the token strings of a highlighted line
/// make up the original string).
#[verifier::external_body]
fn syntect_highlight(code: &str, language: &str) -> (r: Option<Vec<Vec<HlRegion>>>)
    ensures
        r matches Some(v) ==> Some(region_rows_view(v@)) == syntect_lines_of(code@, language@),
        r is None ==> syntect_lines_of(code@, language@) is None,
        r matches Some(v) ==> v@.len() == spec_lines(code@).len(),
        r matches Some(v) ==> forall|i: int|
            0 <= i < v@.len() ==> regions_text(region_row_view(v@[i]@)) == spec_lines(code@)[i],
{
    let ss = syntect::parsing::SyntaxSet::load_defaults_newlines();
    let ts = syntect::highlighting::ThemeSet::load_defaults();
    let syntax = ss.find_syntax_by_token(language)?;
    let mut h = syntect::easy::HighlightLines::new(syntax, &ts.themes["base16-eighties.dark"]);
    let mut out: Vec<Vec<HlRegion>> = Vec::new();
    for line in code.lines() {
        let regions = h.highlight_line(line, &ss).ok()?;
        let row = regions.into_iter();
        out.push(row.map(|(st, t)| region_new(st.foreground.r, st.foreground.g, st.foreground.b, t.to_string())).collect());
    }
    Some(out)
}

/// Packs one highlighted region's color channels and text.
fn region_new(red: u8, green: u8, blue: u8, text: String) -> (r: HlRegion)
    ensures
        r@ == (RegionView { red, green, blue, text: text@ }),
{
    HlRegion { red, green, blue, text }
}

/// The style of highlighted code text with the given foreground color.
pub open spec fn code_fg_style(red: u8, green: u8, blue: u8) -> Style {
    Style {
        fg: Some(Color::Rgb(red, green, blue)),
        bg: Some(code_bg()),
        ..Style::spec_plain()
    }
}

/// The span of one highlighted region.
pub open spec fn region_span(r: RegionView) -> SpanView {
    SpanView { text: r.text, style: code_fg_style(r.red, r.green, r.blue) }
}

/// The indent span opening every highlighted code line.
pub open spec fn code_indent_span() -> SpanView {
    SpanView { text: "    "@, style: Style { bg: Some(code_bg()), ..Style::spec_plain() } }
}

/// One assembled highlighted line: the indent, then one span per region.
pub open spec fn styled_code_line(rs: Seq<RegionView>) -> Seq<SpanView> {
    seq![code_indent_span()] + rs.map(|i: int, r: RegionView| region_span(r))
}

/// The style of a plain (fallback) code line.
pub open spec fn plain_code_style() -> Style {
    Style { fg: Some(Color::Gray), bg: Some(code_bg()), ..Style::spec_plain() }
}

/// One plain fallback code line: the indented text in one dim span.
pub open spec fn plain_code_line(l: Seq<char>) -> Seq<SpanView> {
    seq![SpanView { text: "    "@ + l, style: plain_code_style() }]
}

/// The fallback rendering of a whole code body.
pub open spec fn plain_code_lines_spec(code: Seq<char>) -> Seq<Seq<SpanView>> {
    spec_lines(code).map(|i: int, l: Seq<char>| plain_code_line(l))
}

/// What [`highlight_code`] returns: colored spans when the language
/// resolves and highlighting succeeds, the plain fallback otherwise.
pub open spec fn spec_highlight_code(code: Seq<char>, lang: Seq<char>) -> Seq<Seq<SpanView>> {
    match syntect_lines_of(code, lang) {
        Some(rows) => rows.map(|i: int, rs: Seq<RegionView>| styled_code_line(rs)),
        None => plain_code_lines_spec(code),
    }
}

/// Renders a code body verbatim: one dim indented span per line, over the
/// code background.
fn plain_code_lines(code: &str) -> (r: Vec<StyledLine>)
    ensures
        lines_view(r@) == plain_code_lines_spec(code@),
{
    let ghost lv = spec_lines(code@);
    let parts = split_lines(code);
    let n = parts.len();
    let mut out: Vec<StyledLine> = Vec::new();
    assert(parts.deep_view() == lv);
    for i in 0..n
        invariant
            n == parts@.len(),
            parts.deep_view() == lv,
            lines_view(out@) =~= lv.map(|j: int, l: Seq<char>| plain_code_line(l)).take(i as int),
    {
        let mut t = String::from_str("    ");
        t.append(parts[i].as_str());
        assert(t@ =~= "    "@ + lv[i as int]) by {
            assert(parts@[i as int]@ == parts.deep_view()[i as int]);
        }
        let mut spans: Vec<StyledSpan> = Vec::new();
        spans.push(
            StyledSpan::new(
                t,
                Style { fg: Some(Color::Gray), bg: Some(Color::Rgb(30, 30, 30)), ..Style::plain() },
            ),
        );
        out.push(StyledLine::from_spans(spans));
        assert(lines_view(out@).last() =~= plain_code_line(lv[i as int]));
        assert(lines_view(out@) =~= lv.map(|j: int, l: Seq<char>| plain_code_line(l)).take(i + 1));
    }
    assert(lv.map(|j: int, l: Seq<char>| plain_code_line(l)).take(n as int) =~= lv.map(
        |j: int, l: Seq<char>| plain_code_line(l),
    ));
    out
}

/// Highlights a code body for the given language tag.
///
/// Returns styled lines over a uniform dark background: per-token colored
/// spans when the language resolves to a bundled syntax, the code verbatim
/// in a single dim color otherwise, each line prefixed with a fixed indent.
pub fn highlight_code(code: &str, language: &str) -> (r: Vec<StyledLine>)
    ensures
        lines_view(r@) == spec_highlight_code(code@, language@),
{
    let highlighted = syntect_highlight(code, language);
    match highlighted {
        Some(rows) => {
            let ghost rv = region_rows_view(rows@);
            let n = rows.len();
            let mut out: Vec<StyledLine> = Vec::new();
            for i in 0..n
                invariant
                    n == rows@.len(),
                    rv == region_rows_view(rows@),
                    Some(rv) == syntect_lines_of(code@, language@),
                    lines_view(out@) =~= rv.map(
                        |j: int, rs: Seq<RegionView>| styled_code_line(rs),
                    ).take(i as int),
            {
                let ghost rowv = rv[i as int];
                let mut spans: Vec<StyledSpan> = Vec::new();
                spans.push(
                    StyledSpan::new(
                        String::from_str("    "),
                        Style { bg: Some(Color::Rgb(30, 30, 30)), ..Style::plain() },
                    ),
                );
                assert(spans_view(spans@) =~= seq![code_indent_span()]);
                let m = rows[i].len();
                for j in 0..m
                    invariant
                        i < rows@.len(),
                        m == rows@[i as int]@.len(),
                        rv == region_rows_view(rows@),
                        rowv == rv[i as int],
                        spans_view(spans@) =~= seq![code_indent_span()] + rowv.take(
                            j as int,
                        ).map(|k: int, r: RegionView| region_span(r)),
                {
                    let reg = &rows[i][j];
                    spans.push(
                        StyledSpan::new(
                            reg.text.clone(),
                            Style {
                                fg: Some(Color::Rgb(reg.red, reg.green, reg.blue)),
                                bg: Some(Color::Rgb(30, 30, 30)),
                                ..Style::plain()
                            },
                        ),
                    );
                    assert(rowv.take(j + 1) =~= rowv.take(j as int).push(
                        rows@[i as int]@[j as int]@,
                    ));
                    assert(spans_view(spans@) =~= seq![code_indent_span()] + rowv.take(
                        j + 1,
                    ).map(|k: int, r: RegionView| region_span(r)));
                }
                assert(rowv.take(m as int) =~= rowv);
                assert(spans_view(spans@) =~= styled_code_line(rowv));
                out.push(StyledLine::from_spans(spans));
                assert(lines_view(out@) =~= rv.map(
                    |j: int, rs: Seq<RegionView>| styled_code_line(rs),
                ).take(i + 1));
            }
            assert(rv.map(|j: int, rs: Seq<RegionView>| styled_code_line(rs)).take(n as int)
                =~= rv.map(|j: int, rs: Seq<RegionView>| styled_code_line(rs)));
            out
        },
        None => plain_code_lines(code),
    }
}

} // verus!
