//! The event-driven markdown renderer.
//!
//! A [`Renderer`] walks a finite stream of [`MdEvent`]s and incrementally
//! builds styled output lines, tracking nested block context (lists,
//! blockquotes, tables, code blocks) and inline style scopes with explicit
//! stacks. Its whole behaviour is given by the spec transition function
//! [`spec_step`] over the mathematical state [`RenderState`].

use vstd::prelude::*;

use crate::event::{EventV, MdEvent};
use crate::style::{
    line_blank, line_is_blank, lines_view, row_view, rows_view, spans_view, str_ws_only, ws_only,
    Color, SpanView, Style, StyledLine, StyledSpan,
};
use crate::parse::{events_of, parse_markdown};
use crate::syntax::{highlight_code, spec_highlight_code};
use crate::table::{
    all_rows, border_spec, build_table_border, build_table_row_line, col_count, col_widths_spec,
    compute_col_widths, row_line_spec, widths_view,
};
use crate::text::{
    dec_rep, push_decimal, push_repeat, seq_repeat, trim_tail_nl, trim_trailing_newlines,
};
use crate::event::events_view;

verus! {

broadcast use crate::style::group_view_lemmas;

/// One entry of the list-nesting stack: an unordered list remembers its
/// nesting depth, an ordered list the number of its next item.
#[derive(Clone, Copy, PartialEq, Eq, Structural, Debug)]
pub enum ListKind {
    Unordered(usize),
    Ordered(u64),
}

/// Mathematical image of a [`Renderer`]: every stack and buffer as a
/// sequence.
#[verifier::ext_equal]
pub ghost struct RenderState {
    /// Completed output lines.
    pub lines: Seq<Seq<SpanView>>,
    /// Spans of the line under construction.
    pub cur: Seq<SpanView>,
    /// Active style scopes; the last entry is the effective style.
    pub styles: Seq<Style>,
    /// Whether a code block is open.
    pub in_code: bool,
    /// Language tag of the open code block.
    pub code_lang: Seq<char>,
    /// Raw text accumulated inside the open code block.
    pub code_buf: Seq<char>,
    /// The list-nesting stack.
    pub lists: Seq<ListKind>,
    /// How many blockquotes are open.
    pub quote_depth: int,
    /// Whether a table is open.
    pub in_table: bool,
    /// Whether the open table's header row is being read.
    pub in_head: bool,
    /// Completed cells of the table row being read.
    pub row_cells: Seq<Seq<SpanView>>,
    /// Spans of the table cell being read.
    pub cell: Seq<SpanView>,
    /// Completed header rows of the open table.
    pub header_rows: Seq<Seq<Seq<SpanView>>>,
    /// Completed body rows of the open table.
    pub body_rows: Seq<Seq<Seq<SpanView>>>,
    /// Destination of the open link.
    pub link_url: Option<Seq<char>>,
}

// ── The style palette ──

/// Background color of code blocks.
pub open spec fn code_bg() -> Color {
    Color::Rgb(30, 30, 30)
}

/// Style of a heading of the given level: bold, with a color that
/// distinguishes the first two levels.
pub open spec fn heading_style(level: int) -> Style {
    if level == 1 {
        Style { fg: Some(Color::Cyan), bold: true, ..Style::spec_plain() }
    } else if level == 2 {
        Style { fg: Some(Color::Green), bold: true, ..Style::spec_plain() }
    } else {
        Style { fg: Some(Color::Yellow), bold: true, ..Style::spec_plain() }
    }
}

/// Style of table header text.
pub open spec fn header_text_style() -> Style {
    Style { fg: Some(Color::Cyan), bold: true, ..Style::spec_plain() }
}

/// Style of list-item markers.
pub open spec fn marker_style() -> Style {
    Style { fg: Some(Color::Cyan), ..Style::spec_plain() }
}

/// Style of muted decoration: blockquote bars, link destinations, image
/// brackets, rules and table borders.
pub open spec fn muted_style() -> Style {
    Style { fg: Some(Color::DarkGray), ..Style::spec_plain() }
}

/// Style of inline code.
pub open spec fn inline_code_style() -> Style {
    Style { fg: Some(Color::Magenta), ..Style::spec_plain() }
}

/// Default style of blockquote text.
pub open spec fn quote_text_style() -> Style {
    Style { italic: true, ..Style::spec_plain() }
}

/// The bullet glyph of an unordered list at the given nesting depth; the
/// palette cycles every three levels.
pub open spec fn bullet_for(depth: int) -> Seq<char> {
    if depth % 3 == 0 {
        "• "@
    } else if depth % 3 == 1 {
        "◦ "@
    } else {
        "▪ "@
    }
}

/// One blockquote prefix span.
pub open spec fn quote_span() -> SpanView {
    SpanView { text: "▌ "@, style: muted_style() }
}

/// The blockquote prefix: one bar span for each open blockquote.
pub open spec fn bq_prefix_spans(depth: int) -> Seq<SpanView> {
    Seq::new(depth as nat, |i: int| quote_span())
}

/// The saturating successor of an ordered-list counter.
pub open spec fn ord_next(n: u64) -> u64 {
    if n == u64::MAX {
        n
    } else {
        (n + 1) as u64
    }
}

// ── Spec transitions ──

/// The effective style: the top of the style stack.
pub open spec fn top_style(s: RenderState) -> Style {
    if s.styles.len() > 0 {
        s.styles.last()
    } else {
        Style::spec_plain()
    }
}

/// Flushing the pending spans: they become a completed line, unless there
/// are none.
pub open spec fn spec_flush(s: RenderState) -> RenderState {
    if s.cur.len() > 0 {
        RenderState { lines: s.lines.push(s.cur), cur: Seq::empty(), ..s }
    } else {
        s
    }
}

/// Appending one blank line, unless the last line is already blank.
pub open spec fn spec_push_blank(s: RenderState) -> RenderState {
    if s.lines.len() > 0 && line_blank(s.lines.last()) {
        s
    } else {
        RenderState { lines: s.lines.push(Seq::empty()), ..s }
    }
}

/// Popping the innermost style scope.
pub open spec fn spec_pop_style(s: RenderState) -> RenderState {
    if s.styles.len() > 0 {
        RenderState { styles: s.styles.drop_last(), ..s }
    } else {
        s
    }
}

pub open spec fn spec_start_paragraph(s: RenderState) -> RenderState {
    if s.quote_depth > 0 {
        RenderState { cur: bq_prefix_spans(s.quote_depth), ..s }
    } else {
        s
    }
}

pub open spec fn spec_start_heading(s: RenderState, level: int) -> RenderState {
    RenderState { styles: s.styles.push(heading_style(level)), ..s }
}

pub open spec fn spec_start_strong(s: RenderState) -> RenderState {
    RenderState { styles: s.styles.push(Style { bold: true, ..top_style(s) }), ..s }
}

pub open spec fn spec_start_emphasis(s: RenderState) -> RenderState {
    RenderState { styles: s.styles.push(Style { italic: true, ..top_style(s) }), ..s }
}

pub open spec fn spec_start_strikethrough(s: RenderState) -> RenderState {
    RenderState { styles: s.styles.push(Style { strikethrough: true, ..top_style(s) }), ..s }
}

pub open spec fn spec_start_code_block(s: RenderState, lang: Seq<char>) -> RenderState {
    RenderState { in_code: true, code_buf: Seq::empty(), code_lang: lang, ..s }
}

pub open spec fn spec_start_blockquote(s: RenderState) -> RenderState {
    if s.quote_depth < usize::MAX {
        RenderState { quote_depth: s.quote_depth + 1, ..s }
    } else {
        s
    }
}

pub open spec fn spec_start_list(s: RenderState, first: Option<u64>) -> RenderState {
    match first {
        Some(start) => RenderState { lists: s.lists.push(ListKind::Ordered(start)), ..s },
        None => RenderState {
            lists: s.lists.push(ListKind::Unordered(s.lists.len() as usize)),
            ..s
        },
    }
}

/// The marker span a list item opens with: indentation by nesting level,
/// then a bullet glyph or the item's number.
pub open spec fn item_marker(lists: Seq<ListKind>) -> SpanView {
    if lists.len() > 0 {
        let indent = seq_repeat("  "@, (lists.len() - 1) as nat);
        match lists.last() {
            ListKind::Unordered(depth) => SpanView {
                text: indent + bullet_for(depth as int),
                style: marker_style(),
            },
            ListKind::Ordered(n) => SpanView {
                text: indent + dec_rep(n as int) + ". "@,
                style: marker_style(),
            },
        }
    } else {
        SpanView { text: "  "@, style: Style::spec_plain() }
    }
}

pub open spec fn spec_start_item(s: RenderState) -> RenderState {
    let f = spec_flush(s);
    let lists = if f.lists.len() > 0 && f.lists.last() is Ordered {
        f.lists.update(
            f.lists.len() - 1,
            ListKind::Ordered(ord_next(f.lists.last()->Ordered_0)),
        )
    } else {
        f.lists
    };
    RenderState {
        cur: bq_prefix_spans(f.quote_depth).push(item_marker(f.lists)),
        lists,
        ..f
    }
}

pub open spec fn spec_start_link(s: RenderState, url: Seq<char>) -> RenderState {
    RenderState {
        link_url: Some(url),
        styles: s.styles.push(
            Style { fg: Some(Color::Blue), underlined: true, ..top_style(s) },
        ),
        ..s
    }
}

pub open spec fn spec_start_image(s: RenderState) -> RenderState {
    RenderState { cur: s.cur.push(SpanView { text: "[img: "@, style: muted_style() }), ..s }
}

pub open spec fn spec_start_table(s: RenderState) -> RenderState {
    RenderState {
        in_table: true,
        header_rows: Seq::empty(),
        body_rows: Seq::empty(),
        ..s
    }
}

pub open spec fn spec_start_table_head(s: RenderState) -> RenderState {
    RenderState { in_head: true, ..s }
}

pub open spec fn spec_start_table_row(s: RenderState) -> RenderState {
    RenderState { row_cells: Seq::empty(), ..s }
}

pub open spec fn spec_start_table_cell(s: RenderState) -> RenderState {
    RenderState { cell: Seq::empty(), ..s }
}

pub open spec fn spec_end_heading(s: RenderState) -> RenderState {
    spec_push_blank(spec_flush(spec_pop_style(s)))
}

pub open spec fn spec_end_paragraph(s: RenderState) -> RenderState {
    spec_push_blank(spec_flush(s))
}

pub open spec fn spec_end_blockquote(s: RenderState) -> RenderState {
    let d = if s.quote_depth > 0 {
        s.quote_depth - 1
    } else {
        0
    };
    let s2 = RenderState { quote_depth: d, ..s };
    if d == 0 {
        spec_push_blank(s2)
    } else {
        s2
    }
}

pub open spec fn spec_end_list(s: RenderState) -> RenderState {
    let lists = if s.lists.len() > 0 {
        s.lists.drop_last()
    } else {
        s.lists
    };
    let s2 = RenderState { lists, ..s };
    if lists.len() == 0 {
        spec_push_blank(s2)
    } else {
        s2
    }
}

pub open spec fn spec_end_item(s: RenderState) -> RenderState {
    spec_flush(s)
}

pub open spec fn spec_end_link(s: RenderState) -> RenderState {
    let p = spec_pop_style(s);
    match p.link_url {
        Some(url) => RenderState {
            cur: p.cur.push(SpanView { text: " ("@ + url + ")"@, style: muted_style() }),
            link_url: None,
            ..p
        },
        None => p,
    }
}

pub open spec fn spec_end_image(s: RenderState) -> RenderState {
    RenderState { cur: s.cur.push(SpanView { text: "]"@, style: muted_style() }), ..s }
}

pub open spec fn spec_end_table_head(s: RenderState) -> RenderState {
    RenderState {
        header_rows: s.header_rows.push(s.row_cells),
        row_cells: Seq::empty(),
        in_head: false,
        ..s
    }
}

pub open spec fn spec_end_table_row(s: RenderState) -> RenderState {
    RenderState { body_rows: s.body_rows.push(s.row_cells), row_cells: Seq::empty(), ..s }
}

pub open spec fn spec_end_table_cell(s: RenderState) -> RenderState {
    RenderState { row_cells: s.row_cells.push(s.cell), cell: Seq::empty(), ..s }
}

pub open spec fn spec_handle_text(s: RenderState, t: Seq<char>) -> RenderState {
    if s.in_code {
        RenderState { code_buf: s.code_buf + t, ..s }
    } else if s.in_table {
        let st = if s.in_head {
            header_text_style()
        } else {
            top_style(s)
        };
        RenderState { cell: s.cell.push(SpanView { text: t, style: st }), ..s }
    } else {
        let st = top_style(s);
        let st2 = if s.quote_depth > 0 && st == Style::spec_plain() {
            quote_text_style()
        } else {
            st
        };
        RenderState { cur: s.cur.push(SpanView { text: t, style: st2 }), ..s }
    }
}

pub open spec fn spec_handle_inline_code(s: RenderState, c: Seq<char>) -> RenderState {
    let span = SpanView { text: "`"@ + c + "`"@, style: inline_code_style() };
    if s.in_table {
        RenderState { cell: s.cell.push(span), ..s }
    } else {
        RenderState { cur: s.cur.push(span), ..s }
    }
}

pub open spec fn spec_handle_break(s: RenderState) -> RenderState {
    spec_flush(s)
}

/// The checkbox span of a task-list marker.
pub open spec fn task_span(lists: Seq<ListKind>, checked: bool) -> SpanView {
    let indent = seq_repeat("  "@, (if lists.len() > 0 { lists.len() - 1 } else { 0 }) as nat);
    if checked {
        SpanView {
            text: indent + "  ☑ "@,
            style: Style { fg: Some(Color::Green), ..Style::spec_plain() },
        }
    } else {
        SpanView {
            text: indent + "  ☐ "@,
            style: Style { fg: Some(Color::Yellow), ..Style::spec_plain() },
        }
    }
}

pub open spec fn spec_handle_task_marker(s: RenderState, checked: bool) -> RenderState {
    RenderState {
        cur: bq_prefix_spans(s.quote_depth).push(task_span(s.lists, checked)),
        ..s
    }
}

pub open spec fn spec_handle_rule(s: RenderState) -> RenderState {
    let f = spec_flush(s);
    spec_push_blank(
        RenderState {
            lines: f.lines.push(
                seq![SpanView { text: seq_repeat("─"@, 40), style: muted_style() }],
            ),
            ..f
        },
    )
}

// ── Views of the executable state ──


/// The label line above a highlighted code block: the indented language tag.
pub open spec fn code_label_line(lang: Seq<char>) -> Seq<SpanView> {
    seq![
        SpanView {
            text: "    "@ + lang,
            style: Style { fg: Some(Color::DarkGray), bg: Some(code_bg()), ..Style::spec_plain() },
        },
    ]
}

pub open spec fn spec_end_code_block(s: RenderState) -> RenderState {
    let code = trim_tail_nl(s.code_buf);
    let lang = s.code_lang;
    let base = RenderState { in_code: false, code_buf: Seq::empty(), code_lang: Seq::empty(), ..s };
    let with_label = if lang.len() > 0 {
        base.lines.push(code_label_line(lang))
    } else {
        base.lines
    };
    spec_push_blank(
        RenderState { lines: with_label + spec_highlight_code(code, lang), ..base },
    )
}

/// One border line of a rendered table.
pub open spec fn border_line(ws: Seq<int>, left: char, mid: char, right: char) -> Seq<SpanView> {
    seq![SpanView { text: border_spec(ws, left, mid, right), style: muted_style() }]
}

/// Every line of a rendered table: top border, header rows, middle border,
/// body rows, bottom border.
pub open spec fn table_lines(
    hr: Seq<Seq<Seq<SpanView>>>,
    br: Seq<Seq<Seq<SpanView>>>,
    ws: Seq<int>,
) -> Seq<Seq<SpanView>> {
    seq![border_line(ws, '┌', '┬', '┐')] + hr.map(|i: int, r: Seq<Seq<SpanView>>| row_line_spec(r, ws, true))
        + seq![border_line(ws, '├', '┼', '┤')] + br.map(
        |i: int, r: Seq<Seq<SpanView>>| row_line_spec(r, ws, false),
    ) + seq![border_line(ws, '└', '┴', '┘')]
}

pub open spec fn spec_end_table(s: RenderState) -> RenderState {
    let base = RenderState {
        in_table: false,
        header_rows: Seq::empty(),
        body_rows: Seq::empty(),
        ..s
    };
    let rows = all_rows(s.header_rows, s.body_rows);
    if rows.len() == 0 || col_count(rows) == 0 {
        base
    } else {
        let ws = col_widths_spec(rows);
        spec_push_blank(
            RenderState { lines: base.lines + table_lines(s.header_rows, s.body_rows, ws), ..base },
        )
    }
}

/// One step of the renderer: the state after consuming one event.
pub open spec fn spec_step(s: RenderState, e: EventV) -> RenderState {
    match e {
        EventV::StartParagraph => spec_start_paragraph(s),
        EventV::StartHeading(level) => spec_start_heading(s, level),
        EventV::StartStrong => spec_start_strong(s),
        EventV::StartEmphasis => spec_start_emphasis(s),
        EventV::StartStrikethrough => spec_start_strikethrough(s),
        EventV::StartCodeBlock(lang) => spec_start_code_block(s, lang),
        EventV::StartBlockQuote => spec_start_blockquote(s),
        EventV::StartList(first) => spec_start_list(s, first),
        EventV::StartItem => spec_start_item(s),
        EventV::StartLink(url) => spec_start_link(s, url),
        EventV::StartImage(url) => spec_start_image(s),
        EventV::StartTable => spec_start_table(s),
        EventV::StartTableHead => spec_start_table_head(s),
        EventV::StartTableRow => spec_start_table_row(s),
        EventV::StartTableCell => spec_start_table_cell(s),
        EventV::EndParagraph => spec_end_paragraph(s),
        EventV::EndHeading => spec_end_heading(s),
        EventV::EndStrong => spec_pop_style(s),
        EventV::EndEmphasis => spec_pop_style(s),
        EventV::EndStrikethrough => spec_pop_style(s),
        EventV::EndCodeBlock => spec_end_code_block(s),
        EventV::EndBlockQuote => spec_end_blockquote(s),
        EventV::EndList => spec_end_list(s),
        EventV::EndItem => spec_end_item(s),
        EventV::EndLink => spec_end_link(s),
        EventV::EndImage => spec_end_image(s),
        EventV::EndTable => spec_end_table(s),
        EventV::EndTableHead => spec_end_table_head(s),
        EventV::EndTableRow => spec_end_table_row(s),
        EventV::EndTableCell => spec_end_table_cell(s),
        EventV::Text(t) => spec_handle_text(s, t),
        EventV::Code(c) => spec_handle_inline_code(s, c),
        EventV::SoftBreak => spec_handle_break(s),
        EventV::HardBreak => spec_handle_break(s),
        EventV::TaskMarker(checked) => spec_handle_task_marker(s, checked),
        EventV::Rule => spec_handle_rule(s),
        EventV::Other => s,
    }
}

/// The state after consuming a whole event sequence.
pub open spec fn run(s: RenderState, evs: Seq<EventV>) -> RenderState
    decreases evs.len(),
{
    if evs.len() == 0 {
        s
    } else {
        spec_step(run(s, evs.drop_last()), evs.last())
    }
}

/// The output lines with every trailing blank line removed.
pub open spec fn trim_blanks(ls: Seq<Seq<SpanView>>) -> Seq<Seq<SpanView>>
    decreases ls.len(),
{
    if ls.len() > 0 && line_blank(ls.last()) {
        trim_blanks(ls.drop_last())
    } else {
        ls
    }
}

/// The finished output of a render: pending spans flushed, trailing blank
/// lines stripped, and one blank line if nothing is left.
pub open spec fn finalize_lines(s: RenderState) -> Seq<Seq<SpanView>> {
    let t = trim_blanks(spec_flush(s).lines);
    if t.len() == 0 {
        seq![Seq::<SpanView>::empty()]
    } else {
        t
    }
}

/// What rendering an input produces from a starting state: one blank line
/// for empty or whitespace-only input, else the finished walk over the
/// input's event stream.
pub open spec fn spec_render_from(s: RenderState, input: Seq<char>) -> Seq<Seq<SpanView>> {
    if ws_only(input) {
        seq![Seq::<SpanView>::empty()]
    } else {
        finalize_lines(run(s, events_of(input)))
    }
}

/// What [`render`] returns for an input.
pub open spec fn spec_render(input: Seq<char>) -> Seq<Seq<SpanView>> {
    spec_render_from(init_state(), input)
}

/// Core markdown renderer: walks the event stream and builds styled lines.
pub struct Renderer {
    lines: Vec<StyledLine>,
    current_spans: Vec<StyledSpan>,
    style_stack: Vec<Style>,
    in_code_block: bool,
    code_block_lang: String,
    code_block_buf: String,
    list_stack: Vec<ListKind>,
    blockquote_depth: usize,
    in_table: bool,
    in_table_head: bool,
    table_row_cells: Vec<Vec<StyledSpan>>,
    current_cell_spans: Vec<StyledSpan>,
    table_header_rows: Vec<Vec<Vec<StyledSpan>>>,
    table_body_rows: Vec<Vec<Vec<StyledSpan>>>,
    link_url: Option<String>,
}

impl View for Renderer {
    type V = RenderState;

    closed spec fn view(&self) -> RenderState {
        RenderState {
            lines: lines_view(self.lines@),
            cur: spans_view(self.current_spans@),
            styles: self.style_stack@,
            in_code: self.in_code_block,
            code_lang: self.code_block_lang@,
            code_buf: self.code_block_buf@,
            lists: self.list_stack@,
            quote_depth: self.blockquote_depth as int,
            in_table: self.in_table,
            in_head: self.in_table_head,
            row_cells: row_view(self.table_row_cells@),
            cell: spans_view(self.current_cell_spans@),
            header_rows: rows_view(self.table_header_rows@),
            body_rows: rows_view(self.table_body_rows@),
            link_url: match self.link_url {
                Some(ref u) => Some(u@),
                None => None,
            },
        }
    }
}

/// The renderer's starting state: everything empty, one base style scope.
pub open spec fn init_state() -> RenderState {
    RenderState {
        lines: Seq::empty(),
        cur: Seq::empty(),
        styles: seq![Style::spec_plain()],
        in_code: false,
        code_lang: Seq::empty(),
        code_buf: Seq::empty(),
        lists: Seq::empty(),
        quote_depth: 0,
        in_table: false,
        in_head: false,
        row_cells: Seq::empty(),
        cell: Seq::empty(),
        header_rows: Seq::empty(),
        body_rows: Seq::empty(),
        link_url: None,
    }
}

impl Renderer {
    /// A fresh renderer with no output and only the base style scope active.
    pub fn new() -> (r: Renderer)
        ensures
            r@ == init_state(),
    {
        let mut style_stack: Vec<Style> = Vec::new();
        style_stack.push(Style::plain());
        let r = Renderer {
            lines: Vec::new(),
            current_spans: Vec::new(),
            style_stack,
            in_code_block: false,
            code_block_lang: String::new(),
            code_block_buf: String::new(),
            list_stack: Vec::new(),
            blockquote_depth: 0,
            in_table: false,
            in_table_head: false,
            table_row_cells: Vec::new(),
            current_cell_spans: Vec::new(),
            table_header_rows: Vec::new(),
            table_body_rows: Vec::new(),
            link_url: None,
        };
        assert(r@.lines =~= init_state().lines);
        assert(r@.cur =~= init_state().cur);
        assert(r@.styles =~= init_state().styles);
        assert(r@.row_cells =~= init_state().row_cells);
        assert(r@.cell =~= init_state().cell);
        assert(r@.header_rows =~= init_state().header_rows);
        assert(r@.body_rows =~= init_state().body_rows);
        assert(r@.lists =~= init_state().lists);
        assert(r@.code_lang =~= init_state().code_lang);
        assert(r@.code_buf =~= init_state().code_buf);
        r
    }

    /// The effective style for text emitted now.
    fn current_style(&self) -> (st: Style)
        ensures
            st == top_style(self@),
    {
        if self.style_stack.len() > 0 {
            self.style_stack[self.style_stack.len() - 1]
        } else {
            Style::plain()
        }
    }

    fn push_style(&mut self, st: Style)
        ensures
            final(self)@ == (RenderState { styles: old(self)@.styles.push(st), ..old(self)@ }),
    {
        self.style_stack.push(st);
    }

    fn pop_style(&mut self)
        ensures
            final(self)@ == spec_pop_style(old(self)@),
    {
        if self.style_stack.len() > 0 {
            self.style_stack.pop();
            assert(self@.styles =~= spec_pop_style(old(self)@).styles);
        }
    }

    /// Completes the pending line, if any spans are pending.
    fn flush_spans(&mut self)
        ensures
            final(self)@ == spec_flush(old(self)@),
    {
        if self.current_spans.len() > 0 {
            let mut spans: Vec<StyledSpan> = Vec::new();
            core::mem::swap(&mut spans, &mut self.current_spans);
            self.lines.push(StyledLine::from_spans(spans));
            assert(self@.lines =~= spec_flush(old(self)@).lines);
            assert(self@.cur =~= spec_flush(old(self)@).cur);
        } else {
            assert(spans_view(self.current_spans@).len() == 0);
        }
    }

    /// Appends a blank separator line, unless the previous line is already
    /// blank.
    fn push_blank_line(&mut self)
        ensures
            final(self)@ == spec_push_blank(old(self)@),
    {
        let n = self.lines.len();
        if n == 0 || !line_is_blank(&self.lines[n - 1]) {
            assert(n > 0 ==> self@.lines.last() == self.lines@[n - 1]@);
            self.lines.push(StyledLine::blank());
            assert(self@.lines =~= spec_push_blank(old(self)@).lines);
        } else {
            assert(self@.lines.last() == self.lines@[n - 1]@);
        }
    }

    /// Appends one blockquote bar span per open blockquote to `spans`.
    fn push_bq_prefix(&self, spans: &mut Vec<StyledSpan>)
        ensures
            spans_view(final(spans)@) =~= spans_view(old(spans)@) + bq_prefix_spans(
                self@.quote_depth,
            ),
    {
        let d = self.blockquote_depth;
        for i in 0..d
            invariant
                spans_view(spans@) =~= spans_view(old(spans)@) + bq_prefix_spans(i as int),
        {
            let sp = StyledSpan::new(String::from_str("▌ "), Style::with_fg(Color::DarkGray));
            assert(sp@ == quote_span());
            spans.push(sp);
            assert(spans_view(spans@) =~= spans_view(old(spans)@) + bq_prefix_spans(
                (i + 1) as int,
            ));
        }
    }

    fn start_paragraph(&mut self)
        ensures
            final(self)@ == spec_start_paragraph(old(self)@),
    {
        if self.blockquote_depth > 0 {
            let mut spans: Vec<StyledSpan> = Vec::new();
            self.push_bq_prefix(&mut spans);
            self.current_spans = spans;
            assert(self@.cur =~= spec_start_paragraph(old(self)@).cur);
        }
    }

    fn start_heading(&mut self, level: u8)
        ensures
            final(self)@ == spec_start_heading(old(self)@, level as int),
    {
        let style = if level == 1 {
            Style { fg: Some(Color::Cyan), bold: true, ..Style::plain() }
        } else if level == 2 {
            Style { fg: Some(Color::Green), bold: true, ..Style::plain() }
        } else {
            Style { fg: Some(Color::Yellow), bold: true, ..Style::plain() }
        };
        self.push_style(style);
    }

    fn start_blockquote(&mut self)
        ensures
            final(self)@ == spec_start_blockquote(old(self)@),
    {
        if self.blockquote_depth < usize::MAX {
            self.blockquote_depth = self.blockquote_depth + 1;
        }
    }

    fn start_list(&mut self, first_item: Option<u64>)
        ensures
            final(self)@ == spec_start_list(old(self)@, first_item),
    {
        let depth = self.list_stack.len();
        match first_item {
            Some(start) => self.list_stack.push(ListKind::Ordered(start)),
            None => self.list_stack.push(ListKind::Unordered(depth)),
        }
    }

    fn start_item(&mut self)
        ensures
            final(self)@ == spec_start_item(old(self)@),
    {
        self.flush_spans();
        let ghost f = spec_flush(old(self)@);
        let n = self.list_stack.len();
        let indent_level = if n > 0 {
            n - 1
        } else {
            0
        };
        let mut marker_text = String::new();
        push_repeat(&mut marker_text, "  ", indent_level);
        let marker: StyledSpan = if n > 0 {
            match self.list_stack[n - 1] {
                ListKind::Unordered(depth) => {
                    let bullet = if depth % 3 == 0 {
                        "• "
                    } else if depth % 3 == 1 {
                        "◦ "
                    } else {
                        "▪ "
                    };
                    marker_text.append(bullet);
                    StyledSpan::new(marker_text, Style::with_fg(Color::Cyan))
                },
                ListKind::Ordered(num) => {
                    push_decimal(&mut marker_text, num);
                    marker_text.append(". ");
                    let next = if num == u64::MAX {
                        num
                    } else {
                        num + 1
                    };
                    self.list_stack.set(n - 1, ListKind::Ordered(next));
                    StyledSpan::new(marker_text, Style::with_fg(Color::Cyan))
                },
            }
        } else {
            StyledSpan::new(String::from_str("  "), Style::plain())
        };
        assert(marker@ == item_marker(f.lists));
        let mut spans: Vec<StyledSpan> = Vec::new();
        self.push_bq_prefix(&mut spans);
        spans.push(marker);
        self.current_spans = spans;
        assert(self@.cur =~= spec_start_item(old(self)@).cur);
        assert(self@.lists =~= spec_start_item(old(self)@).lists);
    }

    fn start_link(&mut self, url: String)
        ensures
            final(self)@ == spec_start_link(old(self)@, url@),
    {
        let base = self.current_style();
        self.link_url = Some(url);
        self.style_stack.push(Style { fg: Some(Color::Blue), underlined: true, ..base });
    }

    fn start_image(&mut self)
        ensures
            final(self)@ == spec_start_image(old(self)@),
    {
        self.current_spans.push(
            StyledSpan::new(String::from_str("[img: "), Style::with_fg(Color::DarkGray)),
        );
        assert(self@.cur =~= spec_start_image(old(self)@).cur);
    }

    fn end_heading(&mut self)
        ensures
            final(self)@ == spec_end_heading(old(self)@),
    {
        self.pop_style();
        self.flush_spans();
        self.push_blank_line();
    }

    fn end_paragraph(&mut self)
        ensures
            final(self)@ == spec_end_paragraph(old(self)@),
    {
        self.flush_spans();
        self.push_blank_line();
    }

    fn end_blockquote(&mut self)
        ensures
            final(self)@ == spec_end_blockquote(old(self)@),
    {
        if self.blockquote_depth > 0 {
            self.blockquote_depth = self.blockquote_depth - 1;
        }
        if self.blockquote_depth == 0 {
            self.push_blank_line();
        }
    }

    fn end_list(&mut self)
        ensures
            final(self)@ == spec_end_list(old(self)@),
    {
        if self.list_stack.len() > 0 {
            self.list_stack.pop();
            assert(self@.lists =~= old(self)@.lists.drop_last());
        }
        if self.list_stack.len() == 0 {
            self.push_blank_line();
        }
    }

    fn end_item(&mut self)
        ensures
            final(self)@ == spec_end_item(old(self)@),
    {
        self.flush_spans();
    }

    fn end_link(&mut self)
        ensures
            final(self)@ == spec_end_link(old(self)@),
    {
        self.pop_style();
        let mut taken: Option<String> = None;
        core::mem::swap(&mut taken, &mut self.link_url);
        match taken {
            Some(url) => {
                let mut t = String::from_str(" (");
                t.append(url.as_str());
                t.append(")");
                assert(t@ =~= " ("@ + url@ + ")"@);
                self.current_spans.push(StyledSpan::new(t, Style::with_fg(Color::DarkGray)));
                assert(self@.cur =~= spec_end_link(old(self)@).cur);
            },
            None => {},
        }
    }

    fn end_image(&mut self)
        ensures
            final(self)@ == spec_end_image(old(self)@),
    {
        self.current_spans.push(
            StyledSpan::new(String::from_str("]"), Style::with_fg(Color::DarkGray)),
        );
        assert(self@.cur =~= spec_end_image(old(self)@).cur);
    }

    fn handle_text(&mut self, text: String)
        ensures
            final(self)@ == spec_handle_text(old(self)@, text@),
    {
        if self.in_code_block {
            self.code_block_buf.append(text.as_str());
            return ;
        }
        if self.in_table {
            let style = if self.in_table_head {
                Style { fg: Some(Color::Cyan), bold: true, ..Style::plain() }
            } else {
                self.current_style()
            };
            self.current_cell_spans.push(StyledSpan::new(text, style));
            assert(self@.cell =~= spec_handle_text(old(self)@, text@).cell);
            return ;
        }
        let style = self.current_style();
        let style = if self.blockquote_depth > 0 && style.is_plain() {
            Style { italic: true, ..Style::plain() }
        } else {
            style
        };
        self.current_spans.push(StyledSpan::new(text, style));
        assert(self@.cur =~= spec_handle_text(old(self)@, text@).cur);
    }

    fn handle_inline_code(&mut self, code: String)
        ensures
            final(self)@ == spec_handle_inline_code(old(self)@, code@),
    {
        let mut t = String::from_str("`");
        t.append(code.as_str());
        t.append("`");
        assert(t@ =~= "`"@ + code@ + "`"@);
        let span = StyledSpan::new(t, Style::with_fg(Color::Magenta));
        if self.in_table {
            self.current_cell_spans.push(span);
            assert(self@.cell =~= spec_handle_inline_code(old(self)@, code@).cell);
        } else {
            self.current_spans.push(span);
            assert(self@.cur =~= spec_handle_inline_code(old(self)@, code@).cur);
        }
    }

    fn handle_break(&mut self)
        ensures
            final(self)@ == spec_handle_break(old(self)@),
    {
        self.flush_spans();
    }

    fn handle_task_marker(&mut self, checked: bool)
        ensures
            final(self)@ == spec_handle_task_marker(old(self)@, checked),
    {
        let n = self.list_stack.len();
        let indent_level = if n > 0 {
            n - 1
        } else {
            0
        };
        let mut t = String::new();
        push_repeat(&mut t, "  ", indent_level);
        let span = if checked {
            t.append("  ☑ ");
            StyledSpan::new(t, Style::with_fg(Color::Green))
        } else {
            t.append("  ☐ ");
            StyledSpan::new(t, Style::with_fg(Color::Yellow))
        };
        assert(span@ == task_span(old(self)@.lists, checked));
        let mut spans: Vec<StyledSpan> = Vec::new();
        self.push_bq_prefix(&mut spans);
        spans.push(span);
        self.current_spans = spans;
        assert(self@.cur =~= spec_handle_task_marker(old(self)@, checked).cur);
    }

    fn handle_rule(&mut self)
        ensures
            final(self)@ == spec_handle_rule(old(self)@),
    {
        self.flush_spans();
        let mut t = String::new();
        push_repeat(&mut t, "─", 40);
        assert(t@ =~= seq_repeat("─"@, 40));
        let mut spans: Vec<StyledSpan> = Vec::new();
        spans.push(StyledSpan::new(t, Style::with_fg(Color::DarkGray)));
        let ghost sv = spans_view(spans@);
        assert(sv =~= seq![SpanView { text: seq_repeat("─"@, 40), style: muted_style() }]);
        let ghost pre = self@.lines;
        self.lines.push(StyledLine::from_spans(spans));
        assert(self@.lines =~= pre.push(sv));
        self.push_blank_line();
    }

    fn start_code_block(&mut self, lang: String)
        ensures
            final(self)@ == spec_start_code_block(old(self)@, lang@),
    {
        self.in_code_block = true;
        self.code_block_buf = String::new();
        self.code_block_lang = lang;
    }

    fn start_table(&mut self)
        ensures
            final(self)@ == spec_start_table(old(self)@),
    {
        self.in_table = true;
        self.table_header_rows = Vec::new();
        self.table_body_rows = Vec::new();
        assert(self@.header_rows =~= Seq::<Seq<Seq<SpanView>>>::empty());
        assert(self@.body_rows =~= Seq::<Seq<Seq<SpanView>>>::empty());
    }

    fn start_table_head(&mut self)
        ensures
            final(self)@ == spec_start_table_head(old(self)@),
    {
        self.in_table_head = true;
    }

    fn start_table_row(&mut self)
        ensures
            final(self)@ == spec_start_table_row(old(self)@),
    {
        self.table_row_cells = Vec::new();
        assert(self@.row_cells =~= Seq::<Seq<SpanView>>::empty());
    }

    fn start_table_cell(&mut self)
        ensures
            final(self)@ == spec_start_table_cell(old(self)@),
    {
        self.current_cell_spans = Vec::new();
        assert(self@.cell =~= Seq::<SpanView>::empty());
    }

    fn end_table_head(&mut self)
        ensures
            final(self)@ == spec_end_table_head(old(self)@),
    {
        let mut row: Vec<Vec<StyledSpan>> = Vec::new();
        core::mem::swap(&mut row, &mut self.table_row_cells);
        self.table_header_rows.push(row);
        self.in_table_head = false;
        assert(self@.header_rows =~= spec_end_table_head(old(self)@).header_rows);
        assert(self@.row_cells =~= Seq::<Seq<SpanView>>::empty());
    }

    fn end_table_row(&mut self)
        ensures
            final(self)@ == spec_end_table_row(old(self)@),
    {
        let mut row: Vec<Vec<StyledSpan>> = Vec::new();
        core::mem::swap(&mut row, &mut self.table_row_cells);
        self.table_body_rows.push(row);
        assert(self@.body_rows =~= spec_end_table_row(old(self)@).body_rows);
        assert(self@.row_cells =~= Seq::<Seq<SpanView>>::empty());
    }

    fn end_table_cell(&mut self)
        ensures
            final(self)@ == spec_end_table_cell(old(self)@),
    {
        let mut cell: Vec<StyledSpan> = Vec::new();
        core::mem::swap(&mut cell, &mut self.current_cell_spans);
        self.table_row_cells.push(cell);
        assert(self@.row_cells =~= spec_end_table_cell(old(self)@).row_cells);
        assert(self@.cell =~= Seq::<SpanView>::empty());
    }

    fn end_code_block(&mut self)
        ensures
            final(self)@ == spec_end_code_block(old(self)@),
    {
        self.in_code_block = false;
        let mut buf = String::new();
        core::mem::swap(&mut buf, &mut self.code_block_buf);
        let mut lang = String::new();
        core::mem::swap(&mut lang, &mut self.code_block_lang);
        let code = trim_trailing_newlines(buf.as_str());
        let mut highlighted = highlight_code(code.as_str(), lang.as_str());
        if !lang.as_str().is_empty() {
            let mut t = String::from_str("    ");
            t.append(lang.as_str());
            assert(t@ =~= "    "@ + lang@);
            let mut spans: Vec<StyledSpan> = Vec::new();
            spans.push(
                StyledSpan::new(
                    t,
                    Style {
                        fg: Some(Color::DarkGray),
                        bg: Some(Color::Rgb(30, 30, 30)),
                        ..Style::plain()
                    },
                ),
            );
            let ghost sv = spans_view(spans@);
            self.lines.push(StyledLine::from_spans(spans));
            assert(sv =~= code_label_line(lang@));
        }
        let ghost pre_lines = lines_view(self.lines@);
        let ghost hl = lines_view(highlighted@);
        self.lines.append(&mut highlighted);
        assert(lines_view(self.lines@) =~= pre_lines + hl);
        self.push_blank_line();
    }

    /// Appends one table border line built from the column widths.
    fn push_border_line(&mut self, widths: &Vec<usize>, left: char, mid: char, right: char)
        ensures
            final(self)@ == (RenderState {
                lines: old(self)@.lines.push(
                    border_line(widths_view(widths@), left, mid, right),
                ),
                ..old(self)@
            }),
    {
        let t = build_table_border(widths, left, mid, right);
        let mut spans: Vec<StyledSpan> = Vec::new();
        spans.push(StyledSpan::new(t, Style::with_fg(Color::DarkGray)));
        let ghost sv = spans_view(spans@);
        self.lines.push(StyledLine::from_spans(spans));
        assert(sv =~= border_line(widths_view(widths@), left, mid, right));
        assert(self@.lines =~= old(self)@.lines.push(
            border_line(widths_view(widths@), left, mid, right),
        ));
    }

    fn end_table(&mut self)
        ensures
            final(self)@ == spec_end_table(old(self)@),
    {
        let ghost hr = old(self)@.header_rows;
        let ghost br = old(self)@.body_rows;
        let ghost rows = all_rows(hr, br);
        self.in_table = false;
        let mut header_rows: Vec<Vec<Vec<StyledSpan>>> = Vec::new();
        core::mem::swap(&mut header_rows, &mut self.table_header_rows);
        let mut body_rows: Vec<Vec<Vec<StyledSpan>>> = Vec::new();
        core::mem::swap(&mut body_rows, &mut self.table_body_rows);
        assert(self@.header_rows =~= Seq::<Seq<Seq<SpanView>>>::empty());
        assert(self@.body_rows =~= Seq::<Seq<Seq<SpanView>>>::empty());
        let ghost base = self@;
        if header_rows.len() == 0 && body_rows.len() == 0 {
            assert(rows.len() == 0);
            return ;
        }
        assert(rows.len() > 0);
        let widths = compute_col_widths(&header_rows, &body_rows);
        let ghost ws = col_widths_spec(rows);
        assert(widths_view(widths@) == ws);
        if widths.len() == 0 {
            assert(col_count(rows) == 0);
            return ;
        }
        assert(col_count(rows) != 0);
        self.push_border_line(&widths, '┌', '┬', '┐');
        let hn = header_rows.len();
        for i in 0..hn
            invariant
                hn == header_rows@.len(),
                hr == rows_view(header_rows@),
                ws == widths_view(widths@),
                self@ == (RenderState {
                    lines: base.lines.push(border_line(ws, '┌', '┬', '┐')) + hr.take(
                        i as int,
                    ).map(|j: int, r: Seq<Seq<SpanView>>| row_line_spec(r, ws, true)),
                    ..base
                }),
        {
            let line = build_table_row_line(&header_rows[i], &widths, true);
            assert(line@ =~= row_line_spec(hr[i as int], ws, true));
            self.lines.push(line);
            assert(hr.take(i + 1) =~= hr.take(i as int).push(hr[i as int]));
            assert(hr.take(i + 1).map(|j: int, r: Seq<Seq<SpanView>>| row_line_spec(r, ws, true))
                =~= hr.take(i as int).map(
                |j: int, r: Seq<Seq<SpanView>>| row_line_spec(r, ws, true),
            ).push(row_line_spec(hr[i as int], ws, true)));
            assert(self@.lines =~= base.lines.push(border_line(ws, '┌', '┬', '┐')) + hr.take(
                i + 1,
            ).map(|j: int, r: Seq<Seq<SpanView>>| row_line_spec(r, ws, true)));
        }
        assert(hr.take(hn as int) =~= hr);
        self.push_border_line(&widths, '├', '┼', '┤');
        let ghost mid_lines = self@.lines;
        let bn = body_rows.len();
        for i in 0..bn
            invariant
                bn == body_rows@.len(),
                br == rows_view(body_rows@),
                ws == widths_view(widths@),
                self@ == (RenderState {
                    lines: mid_lines + br.take(i as int).map(
                        |j: int, r: Seq<Seq<SpanView>>| row_line_spec(r, ws, false),
                    ),
                    ..base
                }),
        {
            let line = build_table_row_line(&body_rows[i], &widths, false);
            assert(line@ =~= row_line_spec(br[i as int], ws, false));
            self.lines.push(line);
            assert(br.take(i + 1) =~= br.take(i as int).push(br[i as int]));
            assert(br.take(i + 1).map(|j: int, r: Seq<Seq<SpanView>>| row_line_spec(r, ws, false))
                =~= br.take(i as int).map(
                |j: int, r: Seq<Seq<SpanView>>| row_line_spec(r, ws, false),
            ).push(row_line_spec(br[i as int], ws, false)));
            assert(self@.lines =~= mid_lines + br.take(i + 1).map(
                |j: int, r: Seq<Seq<SpanView>>| row_line_spec(r, ws, false),
            ));
        }
        assert(br.take(bn as int) =~= br);
        self.push_border_line(&widths, '└', '┴', '┘');
        assert(self@.lines =~= base.lines + table_lines(hr, br, ws));
        self.push_blank_line();
    }

    /// Consumes one event, updating every stack and buffer as
    /// [`spec_step`] says.
    fn process_event(&mut self, e: &MdEvent)
        ensures
            final(self)@ == spec_step(old(self)@, e@),
    {
        match e {
            MdEvent::StartParagraph => self.start_paragraph(),
            MdEvent::StartHeading(level) => self.start_heading(*level),
            MdEvent::StartStrong => {
                let st = self.current_style();
                self.push_style(Style { bold: true, ..st });
            },
            MdEvent::StartEmphasis => {
                let st = self.current_style();
                self.push_style(Style { italic: true, ..st });
            },
            MdEvent::StartStrikethrough => {
                let st = self.current_style();
                self.push_style(Style { strikethrough: true, ..st });
            },
            MdEvent::StartCodeBlock(lang) => self.start_code_block(lang.clone()),
            MdEvent::StartBlockQuote => self.start_blockquote(),
            MdEvent::StartList(first) => self.start_list(*first),
            MdEvent::StartItem => self.start_item(),
            MdEvent::StartLink(url) => self.start_link(url.clone()),
            MdEvent::StartImage(_) => self.start_image(),
            MdEvent::StartTable => self.start_table(),
            MdEvent::StartTableHead => self.start_table_head(),
            MdEvent::StartTableRow => self.start_table_row(),
            MdEvent::StartTableCell => self.start_table_cell(),
            MdEvent::EndParagraph => self.end_paragraph(),
            MdEvent::EndHeading => self.end_heading(),
            MdEvent::EndStrong => self.pop_style(),
            MdEvent::EndEmphasis => self.pop_style(),
            MdEvent::EndStrikethrough => self.pop_style(),
            MdEvent::EndCodeBlock => self.end_code_block(),
            MdEvent::EndBlockQuote => self.end_blockquote(),
            MdEvent::EndList => self.end_list(),
            MdEvent::EndItem => self.end_item(),
            MdEvent::EndLink => self.end_link(),
            MdEvent::EndImage => self.end_image(),
            MdEvent::EndTable => self.end_table(),
            MdEvent::EndTableHead => self.end_table_head(),
            MdEvent::EndTableRow => self.end_table_row(),
            MdEvent::EndTableCell => self.end_table_cell(),
            MdEvent::Text(t) => self.handle_text(t.clone()),
            MdEvent::Code(c) => self.handle_inline_code(c.clone()),
            MdEvent::SoftBreak => self.handle_break(),
            MdEvent::HardBreak => self.handle_break(),
            MdEvent::TaskMarker(checked) => self.handle_task_marker(*checked),
            MdEvent::Rule => self.handle_rule(),
            MdEvent::Other => {},
        }
    }


    /// Whether the last completed line is blank.
    fn last_line_blank(&self) -> (r: bool)
        ensures
            r == (self@.lines.len() > 0 && line_blank(self@.lines.last())),
    {
        let k = self.lines.len();
        if k == 0 {
            false
        } else {
            line_is_blank(&self.lines[k - 1])
        }
    }

    /// Renders a markdown document into styled lines.
    ///
    /// Empty or whitespace-only input renders as exactly one blank line.
    /// Otherwise the input's event stream is walked whole, pending spans
    /// are flushed, trailing blank lines are stripped, and an empty result
    /// is replaced by one blank line.
    pub fn render(self, input: &str) -> (r: Vec<StyledLine>)
        ensures
            lines_view(r@) == spec_render_from(self@, input@),
    {
        let ghost s0 = self@;
        let mut this = self;
        if str_ws_only(input) {
            let mut out: Vec<StyledLine> = Vec::new();
            out.push(StyledLine::blank());
            assert(lines_view(out@) =~= seq![Seq::<SpanView>::empty()]);
            return out;
        }
        let events = parse_markdown(input);
        let ghost evs = events_of(input@);
        let n = events.len();
        for i in 0..n
            invariant
                n == events@.len(),
                events_view(events@) == evs,
                this@ == run(s0, evs.take(i as int)),
        {
            assert(events@[i as int]@ == evs[i as int]);
            this.process_event(&events[i]);
            assert(evs.take(i + 1).drop_last() =~= evs.take(i as int));
            assert(evs.take(i + 1).last() == evs[i as int]);
        }
        assert(evs.take(n as int) =~= evs);
        this.flush_spans();
        let ghost target = trim_blanks(spec_flush(run(s0, evs)).lines);
        while this.last_line_blank()
            invariant
                trim_blanks(lines_view(this.lines@)) == target,
            decreases this.lines.len(),
        {
            let ghost pre = lines_view(this.lines@);
            this.lines.pop();
            assert(lines_view(this.lines@) =~= pre.drop_last());
        }
        if this.lines.len() == 0 {
            this.lines.push(StyledLine::blank());
            assert(lines_view(this.lines@) =~= seq![Seq::<SpanView>::empty()]);
        } else {
            assert(lines_view(this.lines@) == target);
        }
        assert(lines_view(this.lines@) == spec_render_from(s0, input@));
        this.lines
    }
}

/// Renders markdown text into styled terminal lines.
///
/// Empty or whitespace-only input renders as exactly one blank line; and
/// for every input whose event stream is plain (see
/// [`crate::laws::plain_stream`]), no two consecutive output lines are
/// both blank.
pub fn render(input: &str) -> (r: Vec<StyledLine>)
    ensures
        lines_view(r@) == spec_render(input@),
        ws_only(input@) ==> lines_view(r@) =~= seq![Seq::<SpanView>::empty()],
        crate::laws::plain_stream(events_of(input@)) ==> crate::laws::no_double_blank(
            lines_view(r@),
        ),
{
    let r = Renderer::new().render(input);
    proof {
        if crate::laws::plain_stream(events_of(input@)) {
            crate::laws::lemma_render_no_double_blank(input@);
        }
    }
    r
}

} // verus!
