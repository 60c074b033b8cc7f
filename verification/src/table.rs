//! Table layout: column widths from buffered rows, bordered grid lines.
//!
//! A table is buffered whole before any line is emitted, because every
//! column's width is the maximum over all rows of that column's cell content
//! length plus two, floored at three. Borders use box-drawing glyphs; header
//! cell text is centered and emphasized, body cells keep their own styling.

use vstd::prelude::*;

use crate::renderer::{header_text_style, muted_style};
use crate::style::{rows_view, spans_view, Color, SpanView, Style, StyledLine, StyledSpan};
use crate::text::{
    push_char, push_repeat, sat_add, sat_add_usize, seq_repeat, spans_text, spans_text_sat_len,
};

verus! {

broadcast use crate::style::group_view_lemmas;

/// The number of columns: the greatest cell count over all rows.
pub open spec fn col_count(rows: Seq<Seq<Seq<SpanView>>>) -> int
    decreases rows.len(),
{
    if rows.len() == 0 {
        0
    } else {
        let rest = col_count(rows.drop_last());
        if rows.last().len() > rest {
            rows.last().len() as int
        } else {
            rest
        }
    }
}

/// The width of column `i`: the greatest cell content length plus two over
/// all rows that reach the column, floored at three.
pub open spec fn width_of_col(rows: Seq<Seq<Seq<SpanView>>>, i: int) -> int
    decreases rows.len(),
{
    if rows.len() == 0 {
        3
    } else {
        let rest = width_of_col(rows.drop_last(), i);
        let row = rows.last();
        if 0 <= i < row.len() {
            let w = sat_add(spans_text_sat_len(row[i]), 2);
            if w > rest {
                w
            } else {
                rest
            }
        } else {
            rest
        }
    }
}

/// All column widths of a buffered table.
pub open spec fn col_widths_spec(rows: Seq<Seq<Seq<SpanView>>>) -> Seq<int> {
    Seq::new(col_count(rows) as nat, |i: int| width_of_col(rows, i))
}

/// The views of a width vector.
pub open spec fn widths_view(v: Seq<usize>) -> Seq<int> {
    v.map(|i: int, w: usize| w as int)
}

/// A run of horizontal border glyphs of the given width.
pub open spec fn dashes(w: int) -> Seq<char> {
    seq_repeat("─"@, w as nat)
}

/// The middle of a border line: each column's dashes, separated by the
/// junction glyph.
pub open spec fn border_mid(ws: Seq<int>, mid: char) -> Seq<char>
    decreases ws.len(),
{
    if ws.len() == 0 {
        Seq::empty()
    } else if ws.len() == 1 {
        dashes(ws[0])
    } else {
        border_mid(ws.drop_last(), mid) + seq![mid] + dashes(ws.last())
    }
}

/// A whole border line: left corner, column dashes with junctions, right
/// corner.
pub open spec fn border_spec(ws: Seq<int>, left: char, mid: char, right: char) -> Seq<char> {
    seq![left] + border_mid(ws, mid) + seq![right]
}

/// The vertical border span between and around row cells.
pub open spec fn border_span() -> SpanView {
    SpanView { text: "│"@, style: muted_style() }
}

/// The spans of one rendered cell: centering pads, the cell content (one
/// emphasized span for header cells, the original spans for body cells),
/// then the closing border.
pub open spec fn cell_block(
    row: Seq<Seq<SpanView>>,
    ws: Seq<int>,
    i: int,
    is_header: bool,
) -> Seq<SpanView> {
    let cell = if 0 <= i < row.len() {
        row[i]
    } else {
        Seq::empty()
    };
    let clen = spans_text_sat_len(cell);
    let pad = if ws[i] >= clen {
        ws[i] - clen
    } else {
        0
    };
    let lp = pad / 2;
    let rp = pad - lp;
    if is_header {
        seq![
            SpanView {
                text: seq_repeat(" "@, lp as nat) + spans_text(cell) + seq_repeat(" "@, rp as nat),
                style: header_text_style(),
            },
            border_span(),
        ]
    } else {
        seq![SpanView { text: seq_repeat(" "@, lp as nat), style: Style::spec_plain() }] + cell
            + seq![
            SpanView { text: seq_repeat(" "@, rp as nat), style: Style::spec_plain() },
            border_span(),
        ]
    }
}

/// The first `k` rendered cells of a row.
pub open spec fn row_cells_spec(
    row: Seq<Seq<SpanView>>,
    ws: Seq<int>,
    k: int,
    is_header: bool,
) -> Seq<SpanView>
    decreases k,
{
    if k <= 0 {
        Seq::empty()
    } else {
        row_cells_spec(row, ws, k - 1, is_header) + cell_block(row, ws, k - 1, is_header)
    }
}

/// One whole rendered table row.
pub open spec fn row_line_spec(row: Seq<Seq<SpanView>>, ws: Seq<int>, is_header: bool) -> Seq<
    SpanView,
> {
    seq![border_span()] + row_cells_spec(row, ws, ws.len() as int, is_header)
}

/// The summed content length of a cell, capped at `usize::MAX`.
pub fn cell_sat_len(cell: &Vec<StyledSpan>) -> (r: usize)
    ensures
        r as int == spans_text_sat_len(spans_view(cell@)),
{
    let n = cell.len();
    let mut r: usize = 0;
    for i in 0..n
        invariant
            n == cell@.len(),
            r as int == spans_text_sat_len(spans_view(cell@).take(i as int)),
    {
        let ghost pre = spans_view(cell@).take(i as int);
        r = sat_add_usize(r, cell[i].content.as_str().unicode_len());
        assert(spans_view(cell@).take(i + 1).drop_last() =~= pre);
        assert(spans_view(cell@).take(i + 1).last() == cell@[i as int]@);
    }
    assert(spans_view(cell@).take(n as int) =~= spans_view(cell@));
    r
}

/// The combined rows of a table, header rows first.
pub open spec fn all_rows(
    header: Seq<Seq<Seq<SpanView>>>,
    body: Seq<Seq<Seq<SpanView>>>,
) -> Seq<Seq<Seq<SpanView>>> {
    header + body
}

/// Computes every column's width from the buffered header and body rows.
pub fn compute_col_widths(
    header: &Vec<Vec<Vec<StyledSpan>>>,
    body: &Vec<Vec<Vec<StyledSpan>>>,
) -> (r: Vec<usize>)
    ensures
        widths_view(r@) =~= col_widths_spec(all_rows(rows_view(header@), rows_view(body@))),
{
    let ghost all = all_rows(rows_view(header@), rows_view(body@));
    let hn = header.len();
    let bn = body.len();
    let mut cols: usize = 0;
    for i in 0..hn
        invariant
            hn == header@.len(),
            bn == body@.len(),
            all == all_rows(rows_view(header@), rows_view(body@)),
            cols as int == col_count(all.take(i as int)),
            cols <= usize::MAX,
    {
        assert(all.take(i + 1).drop_last() =~= all.take(i as int));
        assert(all.take(i + 1).last() == rows_view(header@)[i as int]);
        if header[i].len() > cols {
            cols = header[i].len();
        }
    }
    for i in 0..bn
        invariant
            hn == header@.len(),
            bn == body@.len(),
            all == all_rows(rows_view(header@), rows_view(body@)),
            cols as int == col_count(all.take(hn + i)),
    {
        assert(all.take(hn + i + 1).drop_last() =~= all.take(hn + i));
        assert(all.take(hn + i + 1).last() == rows_view(body@)[i as int]);
        if body[i].len() > cols {
            cols = body[i].len();
        }
    }
    assert(all.take((hn + bn) as int) =~= all);
    let mut widths: Vec<usize> = Vec::new();
    for c in 0..cols
        invariant
            hn == header@.len(),
            bn == body@.len(),
            all == all_rows(rows_view(header@), rows_view(body@)),
            cols as int == col_count(all),
            widths@.len() == c,
            forall|j: int|
                0 <= j < c ==> widths@[j] as int == width_of_col(all, j),
    {
        let mut w: usize = 3;
        for i in 0..hn
            invariant
                hn == header@.len(),
                bn == body@.len(),
                all == all_rows(rows_view(header@), rows_view(body@)),
                w as int == width_of_col(all.take(i as int), c as int),
        {
            assert(all.take(i + 1).drop_last() =~= all.take(i as int));
            assert(all.take(i + 1).last() == rows_view(header@)[i as int]);
            if c < header[i].len() {
                let cl = cell_sat_len(&header[i][c]);
                let cw = sat_add_usize(cl, 2);
                if cw > w {
                    w = cw;
                }
                assert(rows_view(header@)[i as int][c as int] == spans_view(
                    header@[i as int]@[c as int]@,
                ));
            }
        }
        for i in 0..bn
            invariant
                hn == header@.len(),
                bn == body@.len(),
                all == all_rows(rows_view(header@), rows_view(body@)),
                w as int == width_of_col(all.take(hn + i), c as int),
        {
            assert(all.take(hn + i + 1).drop_last() =~= all.take(hn + i));
            assert(all.take(hn + i + 1).last() == rows_view(body@)[i as int]);
            if c < body[i].len() {
                let cl = cell_sat_len(&body[i][c]);
                let cw = sat_add_usize(cl, 2);
                if cw > w {
                    w = cw;
                }
                assert(rows_view(body@)[i as int][c as int] == spans_view(
                    body@[i as int]@[c as int]@,
                ));
            }
        }
        assert(all.take((hn + bn) as int) =~= all);
        widths.push(w);
    }
    assert(widths_view(widths@) =~= col_widths_spec(all));
    widths
}

/// Builds one border line of the table grid.
pub fn build_table_border(widths: &Vec<usize>, left: char, mid: char, right: char) -> (r: String)
    ensures
        r@ == border_spec(widths_view(widths@), left, mid, right),
{
    let ghost wv = widths_view(widths@);
    let n = widths.len();
    let mut s = String::new();
    push_char(&mut s, left);
    assert(s@ =~= seq![left] + border_mid(wv.take(0), mid));
    for i in 0..n
        invariant
            n == widths@.len(),
            wv == widths_view(widths@),
            s@ =~= seq![left] + border_mid(wv.take(i as int), mid),
    {
        if i > 0 {
            push_char(&mut s, mid);
        }
        push_repeat(&mut s, "─", widths[i]);
        proof {
            assert(wv.take(i + 1).drop_last() =~= wv.take(i as int));
            assert(wv.take(i + 1).last() == wv[i as int]);
            if i == 0 {
                assert(border_mid(wv.take(1), mid) == dashes(wv[0]));
            }
        }
        assert(s@ =~= seq![left] + border_mid(wv.take(i + 1), mid));
    }
    push_char(&mut s, right);
    assert(wv.take(n as int) =~= wv);
    assert(s@ =~= border_spec(wv, left, mid, right));
    s
}

/// Appends the concatenated text of a cell's spans to `s`.
fn push_spans_text(s: &mut String, cell: &Vec<StyledSpan>)
    ensures
        final(s)@ == old(s)@ + spans_text(spans_view(cell@)),
{
    let n = cell.len();
    assert(old(s)@ + spans_text(spans_view(cell@).take(0)) =~= old(s)@);
    for i in 0..n
        invariant
            n == cell@.len(),
            s@ =~= old(s)@ + spans_text(spans_view(cell@).take(i as int)),
    {
        s.append(cell[i].content.as_str());
        assert(spans_view(cell@).take(i + 1).drop_last() =~= spans_view(cell@).take(i as int));
        assert(spans_view(cell@).take(i + 1).last() == cell@[i as int]@);
        assert(s@ =~= old(s)@ + spans_text(spans_view(cell@).take(i + 1)));
    }
    assert(spans_view(cell@).take(n as int) =~= spans_view(cell@));
}

/// The vertical border span.
fn bar_span() -> (r: StyledSpan)
    ensures
        r@ == border_span(),
{
    StyledSpan::new(String::from_str("│"), Style::with_fg(Color::DarkGray))
}

/// Builds one rendered table row: cells centered within their columns,
/// header cells emphasized, separated by vertical border glyphs.
pub fn build_table_row_line(
    row: &Vec<Vec<StyledSpan>>,
    widths: &Vec<usize>,
    is_header: bool,
) -> (r: StyledLine)
    ensures
        r@ =~= row_line_spec(row_view_of(row), widths_view(widths@), is_header),
{
    let ghost rv = row_view_of(row);
    let ghost wv = widths_view(widths@);
    let n = widths.len();
    let mut spans: Vec<StyledSpan> = Vec::new();
    spans.push(bar_span());
    assert(spans_view(spans@) =~= seq![border_span()] + row_cells_spec(rv, wv, 0, is_header));
    for i in 0..n
        invariant
            n == widths@.len(),
            rv == row_view_of(row),
            wv == widths_view(widths@),
            spans_view(spans@) =~= seq![border_span()] + row_cells_spec(
                rv,
                wv,
                i as int,
                is_header,
            ),
    {
        let ghost pre = spans_view(spans@);
        let ghost cellv = if 0 <= i < rv.len() {
            rv[i as int]
        } else {
            Seq::<SpanView>::empty()
        };
        let clen: usize = if i < row.len() {
            assert(rv[i as int] == spans_view(row@[i as int]@));
            cell_sat_len(&row[i])
        } else {
            assert(spans_text_sat_len(Seq::<SpanView>::empty()) == 0);
            0
        };
        let w = widths[i];
        let pad = if w >= clen {
            w - clen
        } else {
            0
        };
        let lp = pad / 2;
        let rp = pad - lp;
        if is_header {
            let mut t = String::new();
            push_repeat(&mut t, " ", lp);
            if i < row.len() {
                push_spans_text(&mut t, &row[i]);
            }
            push_repeat(&mut t, " ", rp);
            assert(t@ =~= seq_repeat(" "@, lp as nat) + spans_text(cellv) + seq_repeat(
                " "@,
                rp as nat,
            ));
            spans.push(
                StyledSpan::new(
                    t,
                    Style { fg: Some(Color::Cyan), bold: true, ..Style::plain() },
                ),
            );
            spans.push(bar_span());
            assert(spans_view(spans@) =~= pre + cell_block(rv, wv, i as int, true));
        } else {
            let mut lt = String::new();
            push_repeat(&mut lt, " ", lp);
            assert(lt@ =~= seq_repeat(" "@, lp as nat));
            spans.push(StyledSpan::new(lt, Style::plain()));
            if i < row.len() {
                let m = row[i].len();
                for j in 0..m
                    invariant
                        m == row@[i as int]@.len(),
                        i < row@.len(),
                        rv == row_view_of(row),
                        cellv == rv[i as int],
                        spans_view(spans@) =~= pre + seq![
                            SpanView {
                                text: seq_repeat(" "@, lp as nat),
                                style: Style::spec_plain(),
                            },
                        ] + cellv.take(j as int),
                {
                    let sp = StyledSpan::new(row[i][j].content.clone(), row[i][j].style);
                    spans.push(sp);
                    assert(cellv.take(j + 1).drop_last() =~= cellv.take(j as int));
                    assert(cellv.take(j + 1).last() == row@[i as int]@[j as int]@);
                    assert(spans_view(spans@) =~= pre + seq![
                        SpanView {
                            text: seq_repeat(" "@, lp as nat),
                            style: Style::spec_plain(),
                        },
                    ] + cellv.take(j + 1));
                }
                assert(cellv.take(m as int) =~= cellv);
            }
            let mut rt = String::new();
            push_repeat(&mut rt, " ", rp);
            assert(rt@ =~= seq_repeat(" "@, rp as nat));
            spans.push(StyledSpan::new(rt, Style::plain()));
            spans.push(bar_span());
            assert(spans_view(spans@) =~= pre + cell_block(rv, wv, i as int, false));
        }
        assert(spans_view(spans@) =~= seq![border_span()] + row_cells_spec(
            rv,
            wv,
            i + 1,
            is_header,
        ));
    }
    let r = StyledLine::from_spans(spans);
    assert(r@ =~= row_line_spec(rv, wv, is_header));
    r
}

/// The view of one buffered row.
pub open spec fn row_view_of(row: &Vec<Vec<StyledSpan>>) -> Seq<Seq<SpanView>> {
    row@.map(|i: int, c: Vec<StyledSpan>| spans_view(c@))
}

} // verus!
