//! Styled text primitives: colors, modifier sets, spans and lines.
//!
//! A span is a run of text with one style; a line is an ordered sequence of
//! spans standing for one terminal row. A line whose spans hold only
//! whitespace (or no spans at all) counts as blank; blank lines separate
//! blocks in the rendered output.

use vstd::prelude::*;

verus! {

/// A terminal foreground or background color.
#[derive(Clone, Copy, PartialEq, Eq, Structural, Debug)]
pub enum Color {
    Cyan,
    Green,
    Yellow,
    Blue,
    Magenta,
    Gray,
    DarkGray,
    Rgb(u8, u8, u8),
}

/// A visual style: optional foreground and background colors plus a set of
/// text modifiers.
#[derive(Clone, Copy, PartialEq, Eq, Structural, Debug)]
pub struct Style {
    pub fg: Option<Color>,
    pub bg: Option<Color>,
    pub bold: bool,
    pub italic: bool,
    pub strikethrough: bool,
    pub underlined: bool,
}

impl Style {
    /// The base style: no colors, no modifiers.
    pub open spec fn spec_plain() -> Style {
        Style {
            fg: None,
            bg: None,
            bold: false,
            italic: false,
            strikethrough: false,
            underlined: false,
        }
    }

    /// The base style: no colors, no modifiers.
    pub fn plain() -> (r: Style)
        ensures
            r == Style::spec_plain(),
    {
        Style {
            fg: None,
            bg: None,
            bold: false,
            italic: false,
            strikethrough: false,
            underlined: false,
        }
    }

    /// A style that only sets a foreground color.
    pub fn with_fg(color: Color) -> (r: Style)
        ensures
            r == (Style { fg: Some(color), ..Style::spec_plain() }),
    {
        Style { fg: Some(color), ..Style::plain() }
    }

    /// Whether this style is exactly the base style.
    pub fn is_plain(&self) -> (r: bool)
        ensures
            r == (*self == Style::spec_plain()),
    {
        self.fg.is_none() && self.bg.is_none() && !self.bold && !self.italic
            && !self.strikethrough && !self.underlined
    }
}

impl Default for Style {
    fn default() -> (r: Style)
        ensures
            r == Style::spec_plain(),
    {
        Style::plain()
    }
}

/// Mathematical image of a [`StyledSpan`]: its text as a character sequence
/// together with its style.
#[verifier::ext_equal]
pub ghost struct SpanView {
    pub text: Seq<char>,
    pub style: Style,
}

/// A run of text rendered with a single style.
#[derive(Clone, Debug)]
pub struct StyledSpan {
    pub content: String,
    pub style: Style,
}

impl View for StyledSpan {
    type V = SpanView;

    open spec fn view(&self) -> SpanView {
        SpanView { text: self.content@, style: self.style }
    }
}

impl StyledSpan {
    pub fn new(content: String, style: Style) -> (r: StyledSpan)
        ensures
            r@ == (SpanView { text: content@, style }),
    {
        StyledSpan { content, style }
    }
}

/// One terminal row: an ordered sequence of styled spans.
#[derive(Clone, Debug)]
pub struct StyledLine {
    pub spans: Vec<StyledSpan>,
}

impl View for StyledLine {
    type V = Seq<SpanView>;

    open spec fn view(&self) -> Seq<SpanView> {
        self.spans@.map(|i: int, s: StyledSpan| s@)
    }
}

impl StyledLine {
    /// A line with no spans at all; the canonical blank line.
    pub fn blank() -> (r: StyledLine)
        ensures
            r@ =~= Seq::<SpanView>::empty(),
    {
        StyledLine { spans: Vec::new() }
    }

    pub fn from_spans(spans: Vec<StyledSpan>) -> (r: StyledLine)
        ensures
            r@ =~= spans@.map(|i: int, s: StyledSpan| s@),
    {
        StyledLine { spans }
    }
}

/// Whether a character has the Unicode `White_Space` property.
pub open spec fn is_ws_char(c: char) -> bool {
    ||| c == ' '
    ||| ('\u{9}' <= c && c <= '\u{D}')
    ||| c == '\u{85}'
    ||| c == '\u{A0}'
    ||| c == '\u{1680}'
    ||| ('\u{2000}' <= c && c <= '\u{200A}')
    ||| c == '\u{2028}'
    ||| c == '\u{2029}'
    ||| c == '\u{202F}'
    ||| c == '\u{205F}'
    ||| c == '\u{3000}'
}

/// Whether every character of `s` is whitespace; true of the empty sequence.
pub open spec fn ws_only(s: Seq<char>) -> bool {
    forall|i: int| 0 <= i < s.len() ==> is_ws_char(#[trigger] s[i])
}

/// Whether a line is blank: it has no spans, or every span holds only
/// whitespace.
pub open spec fn line_blank(l: Seq<SpanView>) -> bool {
    forall|i: int| 0 <= i < l.len() ==> ws_only(#[trigger] l[i].text)
}

/// Decides [`is_ws_char`] on a concrete character.
pub fn char_is_whitespace(c: char) -> (r: bool)
    ensures
        r == is_ws_char(c),
{
    let u = c as u32;
    u == 0x20 || (0x9 <= u && u <= 0xD) || u == 0x85 || u == 0xA0 || u == 0x1680
        || (0x2000 <= u && u <= 0x200A) || u == 0x2028 || u == 0x2029 || u == 0x202F
        || u == 0x205F || u == 0x3000
}

/// Decides [`ws_only`] on a string slice.
pub fn str_ws_only(s: &str) -> (r: bool)
    ensures
        r == ws_only(s@),
{
    let n = s.unicode_len();
    for i in 0..n
        invariant
            n == s@.len(),
            forall|j: int| 0 <= j < i ==> is_ws_char(#[trigger] s@[j]),
    {
        if !char_is_whitespace(s.get_char(i)) {
            return false;
        }
    }
    true
}

/// Decides [`line_blank`] on a line.
pub fn line_is_blank(l: &StyledLine) -> (r: bool)
    ensures
        r == line_blank(l@),
{
    let n = l.spans.len();
    for i in 0..n
        invariant
            n == l.spans@.len(),
            forall|j: int| 0 <= j < i ==> ws_only(#[trigger] l@[j].text),
    {
        assert(l@[i as int].text == l.spans@[i as int].content@);
        if !str_ws_only(l.spans[i].content.as_str()) {
            return false;
        }
    }
    true
}

/// The views of a sequence of spans.
pub open spec fn spans_view(v: Seq<StyledSpan>) -> Seq<SpanView> {
    v.map(|i: int, s: StyledSpan| s@)
}

/// The views of a sequence of lines.
pub open spec fn lines_view(v: Seq<StyledLine>) -> Seq<Seq<SpanView>> {
    v.map(|i: int, l: StyledLine| l@)
}

/// The views of a sequence of span buffers (table cells of one row).
pub open spec fn row_view(v: Seq<Vec<StyledSpan>>) -> Seq<Seq<SpanView>> {
    v.map(|i: int, c: Vec<StyledSpan>| spans_view(c@))
}

/// The views of a sequence of rows.
pub open spec fn rows_view(v: Seq<Vec<Vec<StyledSpan>>>) -> Seq<Seq<Seq<SpanView>>> {
    v.map(|i: int, r: Vec<Vec<StyledSpan>>| row_view(r@))
}

// ── View decomposition lemmas ──

/// Pushing a span commutes with taking views.
pub broadcast proof fn lemma_spans_view_push(a: Seq<StyledSpan>, x: StyledSpan)
    ensures
        #[trigger] spans_view(a.push(x)) == spans_view(a).push(x@),
{
    assert(spans_view(a.push(x)) =~= spans_view(a).push(x@));
}

/// Pushing a line commutes with taking views.
pub broadcast proof fn lemma_lines_view_push(a: Seq<StyledLine>, x: StyledLine)
    ensures
        #[trigger] lines_view(a.push(x)) == lines_view(a).push(x@),
{
    assert(lines_view(a.push(x)) =~= lines_view(a).push(x@));
}

/// Pushing a cell commutes with taking views.
pub broadcast proof fn lemma_row_view_push(a: Seq<Vec<StyledSpan>>, x: Vec<StyledSpan>)
    ensures
        #[trigger] row_view(a.push(x)) == row_view(a).push(spans_view(x@)),
{
    assert(row_view(a.push(x)) =~= row_view(a).push(spans_view(x@)));
}

/// Pushing a row commutes with taking views.
pub broadcast proof fn lemma_rows_view_push(a: Seq<Vec<Vec<StyledSpan>>>, x: Vec<Vec<StyledSpan>>)
    ensures
        #[trigger] rows_view(a.push(x)) == rows_view(a).push(row_view(x@)),
{
    assert(rows_view(a.push(x)) =~= rows_view(a).push(row_view(x@)));
}

/// A prefix one longer is the prefix with the next element pushed.
pub broadcast proof fn lemma_take_succ<A>(s: Seq<A>, i: int)
    requires
        0 <= i < s.len(),
    ensures
        #[trigger] s.take(i + 1) == s.take(i).push(s[i]),
{
    assert(s.take(i + 1) =~= s.take(i).push(s[i]));
}

/// Taking a sequence whole gives it back.
pub broadcast proof fn lemma_take_all<A>(s: Seq<A>)
    ensures
        #[trigger] s.take(s.len() as int) == s,
{
    assert(s.take(s.len() as int) =~= s);
}

/// The lemmas that decompose views of grown buffers.
pub broadcast group group_view_lemmas {
    lemma_spans_view_push,
    lemma_lines_view_push,
    lemma_row_view_push,
    lemma_rows_view_push,
    lemma_take_succ,
    lemma_take_all,
}



} // verus!
