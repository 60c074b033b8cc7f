//! Global properties of the renderer, stated and proved over the spec
//! transition function.

use vstd::prelude::*;

use crate::event::EventV;
use crate::parse::events_of;
use crate::renderer::{
    bq_prefix_spans, bullet_for, init_state, item_marker, quote_span, run, spec_flush,
    spec_push_blank, spec_render, spec_step, task_span, trim_blanks, RenderState,
};
use crate::style::{is_ws_char, line_blank, ws_only, SpanView};
use crate::table::border_spec;
use crate::text::{dec_rep, digit_char, seq_repeat};

verus! {

broadcast use crate::style::group_view_lemmas;

/// No two consecutive lines are both blank.
pub open spec fn no_double_blank(ls: Seq<Seq<SpanView>>) -> bool {
    forall|i: int|
        0 <= i < ls.len() - 1 ==> !(line_blank(#[trigger] ls[i]) && line_blank(ls[i + 1]))
}

/// A span that visibly holds something: its text has a non-whitespace
/// character.
pub open spec fn span_visible(sp: SpanView) -> bool {
    !ws_only(sp.text)
}

/// Every pending span is visible.
pub open spec fn cur_visible(cur: Seq<SpanView>) -> bool {
    forall|i: int| 0 <= i < cur.len() ==> span_visible(#[trigger] cur[i])
}

/// The renderer invariant behind blank-line collapsing: the output holds no
/// two consecutive blank lines, every pending span is visible, and no code
/// block is open.
pub open spec fn blank_inv(s: RenderState) -> bool {
    &&& no_double_blank(s.lines)
    &&& cur_visible(s.cur)
    &&& !s.in_code
}

// ── Helper lemmas on visibility ──

/// A concatenation whose right part is visible is visible.
proof fn lemma_concat_visible(a: Seq<char>, b: Seq<char>)
    requires
        !ws_only(b),
    ensures
        !ws_only(a + b),
{
    let i = choose|i: int| 0 <= i < b.len() && !is_ws_char(b[i]);
    assert(!is_ws_char((a + b)[a.len() + i]));
}

/// A concatenation whose left part is visible is visible.
proof fn lemma_concat_visible_left(a: Seq<char>, b: Seq<char>)
    requires
        !ws_only(a),
    ensures
        !ws_only(a + b),
{
    let i = choose|i: int| 0 <= i < a.len() && !is_ws_char(a[i]);
    assert(!is_ws_char((a + b)[i]));
}

/// Every decimal numeral consists of digits, so it is visible.
proof fn lemma_dec_rep_visible(n: int)
    requires
        n >= 0,
    ensures
        !ws_only(dec_rep(n)),
    decreases n,
{
    if n < 10 {
        assert(!is_ws_char(digit_char(n)));
        assert(dec_rep(n)[0] == digit_char(n));
    } else {
        lemma_dec_rep_visible(n / 10);
        let p = dec_rep(n / 10);
        let i = choose|i: int| 0 <= i < p.len() && !is_ws_char(p[i]);
        assert(!is_ws_char(dec_rep(n)[i]));
    }
}

/// A nonzero repetition of a visible piece is visible.
proof fn lemma_repeat_visible(p: Seq<char>, n: nat)
    requires
        !ws_only(p),
        n > 0,
    ensures
        !ws_only(seq_repeat(p, n)),
    decreases n,
{
    if n == 1 {
        assert(seq_repeat(p, 1) == seq_repeat(p, 0) + p);
        assert(seq_repeat(p, 0) + p =~= Seq::<char>::empty() + p);
        lemma_concat_visible(Seq::empty(), p);
    } else {
        lemma_concat_visible(seq_repeat(p, (n - 1) as nat), p);
    }
}

/// The blockquote prefix spans are all visible.
proof fn lemma_bq_prefix_visible(depth: int)
    ensures
        cur_visible(bq_prefix_spans(depth)),
{
    reveal_strlit("▌ ");
    assert forall|i: int| 0 <= i < bq_prefix_spans(depth).len() implies span_visible(
        #[trigger] bq_prefix_spans(depth)[i],
    ) by {
        assert(bq_prefix_spans(depth)[i] == quote_span());
        assert(!is_ws_char("▌ "@[0]));
    }
}

/// Every item marker of a nonempty list stack is visible.
proof fn lemma_item_marker_visible(lists: Seq<crate::renderer::ListKind>)
    requires
        lists.len() > 0,
    ensures
        span_visible(item_marker(lists)),
{
    let indent = seq_repeat("  "@, (lists.len() - 1) as nat);
    match lists.last() {
        crate::renderer::ListKind::Unordered(depth) => {
            reveal_strlit("• ");
            reveal_strlit("◦ ");
            reveal_strlit("▪ ");
            assert(!ws_only(bullet_for(depth as int))) by {
                assert(!is_ws_char("• "@[0]));
                assert(!is_ws_char("◦ "@[0]));
                assert(!is_ws_char("▪ "@[0]));
            }
            lemma_concat_visible(indent, bullet_for(depth as int));
        },
        crate::renderer::ListKind::Ordered(n) => {
            reveal_strlit(". ");
            lemma_dec_rep_visible(n as int);
            lemma_concat_visible(indent, dec_rep(n as int));
            lemma_concat_visible_left(indent + dec_rep(n as int), ". "@);
        },
    }
}

/// Every task checkbox span is visible.
proof fn lemma_task_span_visible(lists: Seq<crate::renderer::ListKind>, checked: bool)
    ensures
        span_visible(task_span(lists, checked)),
{
    let indent = seq_repeat(
        "  "@,
        (if lists.len() > 0 {
            lists.len() - 1
        } else {
            0
        }) as nat,
    );
    reveal_strlit("  ☑ ");
    reveal_strlit("  ☐ ");
    if checked {
        assert(!is_ws_char("  ☑ "@[2]));
        lemma_concat_visible(indent, "  ☑ "@);
    } else {
        assert(!is_ws_char("  ☐ "@[2]));
        lemma_concat_visible(indent, "  ☐ "@);
    }
}

// ── Helper lemmas on the output lines ──

/// Pushing a non-blank line keeps the output free of double blanks.
proof fn lemma_push_nonblank(ls: Seq<Seq<SpanView>>, l: Seq<SpanView>)
    requires
        no_double_blank(ls),
        !line_blank(l),
    ensures
        no_double_blank(ls.push(l)),
{
}

/// Appending only non-blank lines keeps the output free of double blanks.
proof fn lemma_append_nonblank(ls: Seq<Seq<SpanView>>, xs: Seq<Seq<SpanView>>)
    requires
        no_double_blank(ls),
        forall|i: int| 0 <= i < xs.len() ==> !line_blank(#[trigger] xs[i]),
    ensures
        no_double_blank(ls + xs),
    decreases xs.len(),
{
    if xs.len() > 0 {
        lemma_append_nonblank(ls, xs.drop_last());
        lemma_push_nonblank(ls + xs.drop_last(), xs.last());
        assert(ls + xs =~= (ls + xs.drop_last()).push(xs.last()));
    } else {
        assert(ls + xs =~= ls);
    }
}

/// Flushing preserves the invariant: a flushed pending line is visible.
proof fn lemma_flush_inv(s: RenderState)
    requires
        blank_inv(s),
    ensures
        blank_inv(spec_flush(s)),
        spec_flush(s).cur.len() == 0,
        spec_flush(s).in_code == s.in_code,
{
    if s.cur.len() > 0 {
        assert(span_visible(s.cur[0]));
        assert(!line_blank(s.cur));
        lemma_push_nonblank(s.lines, s.cur);
    }
}

/// The guarded blank-line insertion never makes two consecutive blanks.
proof fn lemma_push_blank_inv(s: RenderState)
    requires
        blank_inv(s),
    ensures
        blank_inv(spec_push_blank(s)),
{
    if !(s.lines.len() > 0 && line_blank(s.lines.last())) {
        assert(line_blank(Seq::<SpanView>::empty()));
    }
}

/// A table border line is never blank: it opens with its corner glyph.
proof fn lemma_border_line_nonblank(ws: Seq<int>, l: char, m: char, r: char)
    requires
        !is_ws_char(l),
    ensures
        !line_blank(crate::renderer::border_line(ws, l, m, r)),
{
    let t = border_spec(ws, l, m, r);
    assert(t[0] == l);
    assert(!ws_only(t));
    assert(crate::renderer::border_line(ws, l, m, r)[0].text == t);
}

/// A rendered table row is never blank: it opens with the vertical border.
proof fn lemma_row_line_nonblank(row: Seq<Seq<SpanView>>, ws: Seq<int>, is_header: bool)
    ensures
        !line_blank(crate::table::row_line_spec(row, ws, is_header)),
{
    reveal_strlit("│");
    let line = crate::table::row_line_spec(row, ws, is_header);
    assert(line[0] == crate::table::border_span());
    assert(!is_ws_char("│"@[0]));
    assert(!ws_only(crate::table::border_span().text));
}

/// No line of a rendered table is blank.
proof fn lemma_table_lines_nonblank(
    hr: Seq<Seq<Seq<SpanView>>>,
    br: Seq<Seq<Seq<SpanView>>>,
    ws: Seq<int>,
)
    ensures
        forall|i: int|
            0 <= i < crate::renderer::table_lines(hr, br, ws).len() ==> !line_blank(
                #[trigger] crate::renderer::table_lines(hr, br, ws)[i],
            ),
{
    let tl = crate::renderer::table_lines(hr, br, ws);
    let hmap = hr.map(|i: int, r: Seq<Seq<SpanView>>| crate::table::row_line_spec(r, ws, true));
    let bmap = br.map(|i: int, r: Seq<Seq<SpanView>>| crate::table::row_line_spec(r, ws, false));
    assert forall|i: int| 0 <= i < tl.len() implies !line_blank(#[trigger] tl[i]) by {
        if i == 0 {
            assert(tl[i] == crate::renderer::border_line(ws, '┌', '┬', '┐'));
            lemma_border_line_nonblank(ws, '┌', '┬', '┐');
        } else if i < 1 + hmap.len() {
            assert(tl[i] == hmap[i - 1]);
            lemma_row_line_nonblank(hr[i - 1], ws, true);
        } else if i == 1 + hmap.len() {
            assert(tl[i] == crate::renderer::border_line(ws, '├', '┼', '┤'));
            lemma_border_line_nonblank(ws, '├', '┼', '┤');
        } else if i < 2 + hmap.len() + bmap.len() {
            assert(tl[i] == bmap[i - 2 - hmap.len()]);
            lemma_row_line_nonblank(br[i - 2 - hmap.len()], ws, false);
        } else {
            assert(tl[i] == crate::renderer::border_line(ws, '└', '┴', '┘'));
            lemma_border_line_nonblank(ws, '└', '┴', '┘');
        }
    }
}

// ── The events the collapsing law covers ──

/// An event the blank-line collapsing law covers: not a code-block
/// boundary (highlighted code may itself hold blank lines), and any text
/// run carries a visible character.
pub open spec fn plain_event(e: EventV) -> bool {
    match e {
        EventV::Text(t) => !ws_only(t),
        EventV::StartCodeBlock(lang) => false,
        EventV::EndCodeBlock => false,
        _ => true,
    }
}

/// The list-nesting depth just before event `i`: list starts minus list
/// ends so far, never below zero.
pub open spec fn list_depth_at(evs: Seq<EventV>, i: int) -> int
    decreases i,
{
    if i <= 0 {
        0
    } else {
        let d = list_depth_at(evs, i - 1);
        match evs[i - 1] {
            EventV::StartList(first) => d + 1,
            EventV::EndList => if d > 0 {
                d - 1
            } else {
                0
            },
            _ => d,
        }
    }
}

/// A stream the collapsing law covers: every event is plain, and every
/// item stands inside a list.
pub open spec fn plain_stream(evs: Seq<EventV>) -> bool {
    forall|i: int|
        0 <= i < evs.len() ==> plain_event(#[trigger] evs[i]) && (evs[i] is StartItem
            ==> list_depth_at(evs, i) >= 1)
}

/// The depth before `i` depends only on the events before `i`.
proof fn lemma_depth_prefix(a: Seq<EventV>, b: Seq<EventV>, i: int)
    requires
        0 <= i,
        forall|j: int| 0 <= j < i ==> a[j] == b[j],
    ensures
        list_depth_at(a, i) == list_depth_at(b, i),
    decreases i,
{
    if i > 0 {
        lemma_depth_prefix(a, b, i - 1);
    }
}

/// One step preserves the collapsing invariant.
proof fn lemma_step_inv(s: RenderState, e: EventV)
    requires
        blank_inv(s),
        plain_event(e),
        e is StartItem ==> s.lists.len() >= 1,
    ensures
        blank_inv(spec_step(s, e)),
{
    match e {
        EventV::StartParagraph => {
            if s.quote_depth > 0 {
                lemma_bq_prefix_visible(s.quote_depth);
            }
        },
        EventV::StartItem => {
            lemma_flush_inv(s);
            let f = spec_flush(s);
            lemma_bq_prefix_visible(f.quote_depth);
            lemma_item_marker_visible(f.lists);
            assert(cur_visible(bq_prefix_spans(f.quote_depth).push(item_marker(f.lists))));
        },
        EventV::StartImage(url) => {
            reveal_strlit("[img: ");
            assert(!is_ws_char("[img: "@[0]));
            assert(cur_visible(spec_step(s, e).cur));
        },
        EventV::EndParagraph => {
            lemma_flush_inv(s);
            lemma_push_blank_inv(spec_flush(s));
        },
        EventV::EndHeading => {
            let p = crate::renderer::spec_pop_style(s);
            assert(blank_inv(p));
            lemma_flush_inv(p);
            lemma_push_blank_inv(spec_flush(p));
        },
        EventV::EndBlockQuote => {
            let d = if s.quote_depth > 0 {
                s.quote_depth - 1
            } else {
                0
            };
            let s2 = RenderState { quote_depth: d, ..s };
            assert(blank_inv(s2));
            if d == 0 {
                lemma_push_blank_inv(s2);
            }
        },
        EventV::EndList => {
            let lists = if s.lists.len() > 0 {
                s.lists.drop_last()
            } else {
                s.lists
            };
            let s2 = RenderState { lists, ..s };
            assert(blank_inv(s2));
            if lists.len() == 0 {
                lemma_push_blank_inv(s2);
            }
        },
        EventV::EndItem => {
            lemma_flush_inv(s);
        },
        EventV::EndLink => {
            let p = crate::renderer::spec_pop_style(s);
            match p.link_url {
                Some(url) => {
                    reveal_strlit(")");
                    assert(!is_ws_char(")"@[0]));
                    lemma_concat_visible(" ("@ + url, ")"@);
                    assert(cur_visible(spec_step(s, e).cur));
                },
                None => {},
            }
        },
        EventV::EndImage => {
            reveal_strlit("]");
            assert(!is_ws_char("]"@[0]));
            assert(cur_visible(spec_step(s, e).cur));
        },
        EventV::EndTable => {
            let base = RenderState {
                in_table: false,
                header_rows: Seq::empty(),
                body_rows: Seq::empty(),
                ..s
            };
            let rows = crate::table::all_rows(s.header_rows, s.body_rows);
            if rows.len() == 0 || crate::table::col_count(rows) == 0 {
            } else {
                let ws = crate::table::col_widths_spec(rows);
                lemma_table_lines_nonblank(s.header_rows, s.body_rows, ws);
                lemma_append_nonblank(
                    base.lines,
                    crate::renderer::table_lines(s.header_rows, s.body_rows, ws),
                );
                lemma_push_blank_inv(
                    RenderState {
                        lines: base.lines + crate::renderer::table_lines(
                            s.header_rows,
                            s.body_rows,
                            ws,
                        ),
                        ..base
                    },
                );
            }
        },
        EventV::Text(t) => {
            if !s.in_table {
                assert(cur_visible(spec_step(s, e).cur));
            }
        },
        EventV::Code(c) => {
            reveal_strlit("`");
            assert(!is_ws_char("`"@[0]));
            lemma_concat_visible("`"@ + c, "`"@);
            if !s.in_table {
                assert(cur_visible(spec_step(s, e).cur));
            }
        },
        EventV::SoftBreak => {
            lemma_flush_inv(s);
        },
        EventV::HardBreak => {
            lemma_flush_inv(s);
        },
        EventV::TaskMarker(checked) => {
            lemma_bq_prefix_visible(s.quote_depth);
            lemma_task_span_visible(s.lists, checked);
            assert(cur_visible(
                bq_prefix_spans(s.quote_depth).push(task_span(s.lists, checked)),
            ));
        },
        EventV::Rule => {
            lemma_flush_inv(s);
            reveal_strlit("─");
            assert(!is_ws_char("─"@[0]));
            lemma_repeat_visible("─"@, 40);
            let f = spec_flush(s);
            let rl = seq![
                SpanView {
                    text: seq_repeat("─"@, 40),
                    style: crate::renderer::muted_style(),
                },
            ];
            assert(rl[0].text == seq_repeat("─"@, 40));
            assert(!line_blank(rl));
            lemma_push_nonblank(f.lines, rl);
            lemma_push_blank_inv(RenderState { lines: f.lines.push(rl), ..f });
        },
        _ => {},
    }
}

/// How one step changes the list-nesting depth.
proof fn lemma_step_lists(s: RenderState, e: EventV)
    ensures
        spec_step(s, e).lists.len() as int == (match e {
            EventV::StartList(first) => s.lists.len() as int + 1,
            EventV::EndList => if s.lists.len() > 0 {
                s.lists.len() as int - 1
            } else {
                0
            },
            _ => s.lists.len() as int,
        }),
{
}

/// Walking a whole plain stream preserves the collapsing invariant, and
/// the list stack tracks the stream's nesting depth.
proof fn lemma_run_inv(s0: RenderState, evs: Seq<EventV>)
    requires
        blank_inv(s0),
        s0.lists.len() == 0,
        plain_stream(evs),
    ensures
        blank_inv(run(s0, evs)),
        run(s0, evs).lists.len() == list_depth_at(evs, evs.len() as int),
    decreases evs.len(),
{
    if evs.len() > 0 {
        let pre = evs.drop_last();
        let n = evs.len() as int;
        assert forall|i: int| 0 <= i < pre.len() implies plain_event(#[trigger] pre[i]) && (
        pre[i] is StartItem ==> list_depth_at(pre, i) >= 1) by {
            assert(pre[i] == evs[i]);
            assert(plain_event(evs[i]) && (evs[i] is StartItem ==> list_depth_at(evs, i) >= 1));
            lemma_depth_prefix(pre, evs, i);
        }
        lemma_run_inv(s0, pre);
        let sm = run(s0, pre);
        let e = evs.last();
        lemma_depth_prefix(pre, evs, n - 1);
        if e is StartItem {
            assert(plain_event(evs[n - 1]) && list_depth_at(evs, n - 1) >= 1);
            assert(sm.lists.len() >= 1);
        }
        assert(plain_event(evs[n - 1]));
        lemma_step_inv(sm, e);
        lemma_step_lists(sm, e);
    }
}

/// Stripping trailing blanks cannot create consecutive blanks.
proof fn lemma_trim_ndb(ls: Seq<Seq<SpanView>>)
    requires
        no_double_blank(ls),
    ensures
        no_double_blank(trim_blanks(ls)),
    decreases ls.len(),
{
    if ls.len() > 0 && line_blank(ls.last()) {
        assert(no_double_blank(ls.drop_last()));
        lemma_trim_ndb(ls.drop_last());
    }
}

// ── The laws ──

/// Law: no two consecutive lines of a render output are both blank, for
/// every input whose event stream is plain: it opens no code block (a
/// highlighted code body may itself hold blank lines), each of its text
/// runs carries a visible character, and each of its items stands inside
/// a list.
pub proof fn lemma_render_no_double_blank(input: Seq<char>)
    requires
        plain_stream(events_of(input)),
    ensures
        no_double_blank(spec_render(input)),
{
    if ws_only(input) {
    } else {
        let evs = events_of(input);
        assert(blank_inv(init_state()));
        lemma_run_inv(init_state(), evs);
        let sfin = run(init_state(), evs);
        lemma_flush_inv(sfin);
        lemma_trim_ndb(spec_flush(sfin).lines);
    }
}

// ── List marker laws ──

/// Law: the bullet palette cycles with period three in the nesting depth.
pub proof fn lemma_bullet_cycles(depth: int)
    requires
        depth >= 0,
    ensures
        bullet_for(depth + 3) == bullet_for(depth),
{
    assert((depth + 3) % 3 == depth % 3);
}

/// Walking a concatenation is walking both parts in turn.
proof fn lemma_run_append(s: RenderState, a: Seq<EventV>, b: Seq<EventV>)
    ensures
        run(s, a + b) == run(run(s, a), b),
    decreases b.len(),
{
    if b.len() == 0 {
        assert(a + b =~= a);
    } else {
        lemma_run_append(s, a, b.drop_last());
        assert((a + b).drop_last() =~= a + b.drop_last());
        assert((a + b).last() == b.last());
    }
}

/// The events of one list item holding one text run.
pub open spec fn item_block(w: Seq<char>) -> Seq<EventV> {
    seq![EventV::StartItem, EventV::Text(w), EventV::EndItem]
}

/// The events of a row of list items, one per text run.
pub open spec fn items_stream(texts: Seq<Seq<char>>) -> Seq<EventV>
    decreases texts.len(),
{
    if texts.len() == 0 {
        Seq::empty()
    } else {
        items_stream(texts.drop_last()) + item_block(texts.last())
    }
}

/// What three steps do to one list item at the top of the list stack:
/// the item's line opens with the marker of the current stack top, and an
/// ordered counter advances by one.
proof fn lemma_item_block_step(s: RenderState, w: Seq<char>)
    requires
        s.cur.len() == 0,
        s.quote_depth == 0,
        !s.in_code,
        !s.in_table,
        s.lists.len() >= 1,
    ensures
        ({
            let t = run(s, item_block(w));
            &&& t.lines == s.lines.push(
                seq![item_marker(s.lists)].push(
                    SpanView {
                        text: w,
                        style: crate::renderer::top_style(s),
                    },
                ),
            )
            &&& t.cur.len() == 0
            &&& t.quote_depth == 0
            &&& !t.in_code
            &&& !t.in_table
            &&& t.styles == s.styles
            &&& t.lists.len() == s.lists.len()
            &&& t.lists.drop_last() == s.lists.drop_last()
            &&& (s.lists.last() matches crate::renderer::ListKind::Ordered(n) ==> t.lists.last()
                == crate::renderer::ListKind::Ordered(crate::renderer::ord_next(n)))
            &&& (s.lists.last() is Unordered ==> t.lists.last() == s.lists.last())
        }),
{
    let b = item_block(w);
    assert(b.drop_last() =~= seq![EventV::StartItem, EventV::Text(w)]);
    assert(b.drop_last().drop_last() =~= seq![EventV::StartItem]);
    assert(b.drop_last().drop_last().drop_last() =~= Seq::<EventV>::empty());
    let s1 = spec_step(s, EventV::StartItem);
    let s2 = spec_step(s1, EventV::Text(w));
    let s3 = spec_step(s2, EventV::EndItem);
    assert(run(s, Seq::<EventV>::empty()) == s);
    assert(run(s, seq![EventV::StartItem]) == s1);
    assert(run(s, seq![EventV::StartItem, EventV::Text(w)]) == s2);
    assert(run(s, b) == s3);
    assert(spec_flush(s) == s);
    assert(bq_prefix_spans(0) =~= Seq::<SpanView>::empty());
    assert(s1.cur =~= seq![item_marker(s.lists)]);
    assert(s2.cur =~= seq![item_marker(s.lists)].push(
        SpanView { text: w, style: crate::renderer::top_style(s) },
    ));
    assert(crate::renderer::top_style(s1) == crate::renderer::top_style(s));
    if s.lists.last() is Ordered {
        assert(s1.lists.drop_last() =~= s.lists.drop_last());
    }
}

/// Law: an ordered list starting at `start` numbers its items
/// `start`, `start + 1`, and so on in input order: the line of item `i`
/// opens with the numeral of `start + i`.
pub proof fn lemma_ordered_prefixes(s: RenderState, start: u64, texts: Seq<Seq<char>>)
    requires
        s.cur.len() == 0,
        s.quote_depth == 0,
        !s.in_code,
        !s.in_table,
        s.lists.len() >= 1,
        s.lists.last() == crate::renderer::ListKind::Ordered(start),
        start as int + texts.len() <= u64::MAX as int,
    ensures
        ({
            let t = run(s, items_stream(texts));
            &&& t.lines.len() == s.lines.len() + texts.len()
            &&& forall|i: int|
                0 <= i < texts.len() ==> (#[trigger] t.lines[s.lines.len() + i]).len() >= 1
                    && t.lines[s.lines.len() + i][0].text == seq_repeat(
                    "  "@,
                    (s.lists.len() - 1) as nat,
                ) + dec_rep(start as int + i) + ". "@
            &&& t.cur.len() == 0
            &&& t.quote_depth == 0
            &&& !t.in_code
            &&& !t.in_table
            &&& t.styles == s.styles
            &&& t.lists.len() == s.lists.len()
            &&& t.lists.last() == crate::renderer::ListKind::Ordered(
                ((start as int + texts.len()) as u64),
            )
        }),
    decreases texts.len(),
{
    if texts.len() == 0 {
        assert(items_stream(texts) =~= Seq::<EventV>::empty());
    } else {
        let pre = texts.drop_last();
        lemma_ordered_prefixes(s, start, pre);
        let sm = run(s, items_stream(pre));
        lemma_run_append(s, items_stream(pre), item_block(texts.last()));
        let nm = ((start as int + pre.len()) as u64);
        assert(sm.lists.last() == crate::renderer::ListKind::Ordered(nm));
        lemma_item_block_step(sm, texts.last());
        let t = run(s, items_stream(texts));
        assert(t.lines == sm.lines.push(
            seq![item_marker(sm.lists)].push(
                SpanView { text: texts.last(), style: crate::renderer::top_style(sm) },
            ),
        ));
        assert(item_marker(sm.lists).text == seq_repeat("  "@, (s.lists.len() - 1) as nat)
            + dec_rep(nm as int) + ". "@);
        assert(crate::renderer::ord_next(nm) as int == start as int + texts.len());
        assert forall|i: int| 0 <= i < texts.len() implies (#[trigger] t.lines[s.lines.len()
            + i]).len() >= 1 && t.lines[s.lines.len() + i][0].text == seq_repeat(
            "  "@,
            (s.lists.len() - 1) as nat,
        ) + dec_rep(start as int + i) + ". "@ by {
            if i < pre.len() {
                assert(t.lines[s.lines.len() + i] == sm.lines[s.lines.len() + i]);
            } else {
                assert(t.lines[s.lines.len() + i] == t.lines.last());
            }
        }
    }
}

/// Law: every item of an unordered list at one nesting depth opens with
/// that depth's bullet glyph, whatever the item count.
pub proof fn lemma_unordered_bullets(s: RenderState, depth: usize, texts: Seq<Seq<char>>)
    requires
        s.cur.len() == 0,
        s.quote_depth == 0,
        !s.in_code,
        !s.in_table,
        s.lists.len() >= 1,
        s.lists.last() == crate::renderer::ListKind::Unordered(depth),
    ensures
        ({
            let t = run(s, items_stream(texts));
            &&& t.lines.len() == s.lines.len() + texts.len()
            &&& forall|i: int|
                0 <= i < texts.len() ==> (#[trigger] t.lines[s.lines.len() + i]).len() >= 1
                    && t.lines[s.lines.len() + i][0].text == seq_repeat(
                    "  "@,
                    (s.lists.len() - 1) as nat,
                ) + bullet_for(depth as int)
            &&& t.cur.len() == 0
            &&& t.quote_depth == 0
            &&& !t.in_code
            &&& !t.in_table
            &&& t.styles == s.styles
            &&& t.lists == s.lists
        }),
    decreases texts.len(),
{
    if texts.len() == 0 {
        assert(items_stream(texts) =~= Seq::<EventV>::empty());
    } else {
        let pre = texts.drop_last();
        lemma_unordered_bullets(s, depth, pre);
        let sm = run(s, items_stream(pre));
        lemma_run_append(s, items_stream(pre), item_block(texts.last()));
        lemma_item_block_step(sm, texts.last());
        let t = run(s, items_stream(texts));
        assert(t.lists =~= s.lists) by {
            assert forall|i: int| 0 <= i < t.lists.len() implies t.lists[i] == s.lists[i] by {
                if i < t.lists.len() - 1 {
                    assert(t.lists[i] == t.lists.drop_last()[i]);
                    assert(s.lists[i] == s.lists.drop_last()[i]);
                } else {
                    assert(t.lists[i] == t.lists.last());
                }
            }
        };
        assert(item_marker(sm.lists).text == seq_repeat("  "@, (s.lists.len() - 1) as nat)
            + bullet_for(depth as int));
        assert forall|i: int| 0 <= i < texts.len() implies (#[trigger] t.lines[s.lines.len()
            + i]).len() >= 1 && t.lines[s.lines.len() + i][0].text == seq_repeat(
            "  "@,
            (s.lists.len() - 1) as nat,
        ) + bullet_for(depth as int) by {
            if i < pre.len() {
                assert(t.lines[s.lines.len() + i] == sm.lines[s.lines.len() + i]);
            } else {
                assert(t.lines[s.lines.len() + i] == t.lines.last());
            }
        }
    }
}

// ── Table geometry laws ──

/// No row has more cells than the table has columns.
proof fn lemma_col_count_ge_row(rows: Seq<Seq<Seq<SpanView>>>, r: int)
    requires
        0 <= r < rows.len(),
    ensures
        rows[r].len() <= crate::table::col_count(rows),
    decreases rows.len(),
{
    if r < rows.len() - 1 {
        lemma_col_count_ge_row(rows.drop_last(), r);
        assert(rows.drop_last()[r] == rows[r]);
    }
}

/// Every column is at least three wide.
proof fn lemma_width_min(rows: Seq<Seq<Seq<SpanView>>>, i: int)
    ensures
        crate::table::width_of_col(rows, i) >= 3,
    decreases rows.len(),
{
    if rows.len() > 0 {
        lemma_width_min(rows.drop_last(), i);
    }
}

/// Every column is at least two wider than each of its cells' content.
proof fn lemma_width_ge_cell(rows: Seq<Seq<Seq<SpanView>>>, r: int, i: int)
    requires
        0 <= r < rows.len(),
        0 <= i < rows[r].len(),
    ensures
        crate::table::width_of_col(rows, i) >= crate::text::sat_add(
            crate::text::spans_text_sat_len(rows[r][i]),
            2,
        ),
    decreases rows.len(),
{
    if r < rows.len() - 1 {
        lemma_width_ge_cell(rows.drop_last(), r, i);
        assert(rows.drop_last()[r] == rows[r]);
    }
}

/// How many of the three border glyphs occur in a text.
pub open spec fn count_junctions(s: Seq<char>, l: char, m: char, r: char) -> int
    decreases s.len(),
{
    if s.len() == 0 {
        0
    } else {
        count_junctions(s.drop_last(), l, m, r) + (if s.last() == l || s.last() == m || s.last()
            == r {
            1int
        } else {
            0int
        })
    }
}

/// Junction counting is additive over concatenation.
proof fn lemma_count_concat(a: Seq<char>, b: Seq<char>, l: char, m: char, r: char)
    ensures
        count_junctions(a + b, l, m, r) == count_junctions(a, l, m, r) + count_junctions(
            b,
            l,
            m,
            r,
        ),
    decreases b.len(),
{
    if b.len() == 0 {
        assert(a + b =~= a);
    } else {
        lemma_count_concat(a, b.drop_last(), l, m, r);
        assert((a + b).drop_last() =~= a + b.drop_last());
        assert((a + b).last() == b.last());
    }
}

/// A run of horizontal dashes holds no junction glyph.
proof fn lemma_count_dashes(w: nat, l: char, m: char, r: char)
    requires
        l != '─',
        m != '─',
        r != '─',
    ensures
        count_junctions(seq_repeat("─"@, w), l, m, r) == 0,
    decreases w,
{
    reveal_strlit("─");
    if w == 0 {
    } else {
        lemma_count_dashes((w - 1) as nat, l, m, r);
        lemma_count_concat(seq_repeat("─"@, (w - 1) as nat), "─"@, l, m, r);
        assert("─"@.drop_last() =~= Seq::<char>::empty());
        assert("─"@.last() == '─');
        assert(count_junctions(Seq::<char>::empty(), l, m, r) == 0);
        assert(count_junctions("─"@, l, m, r) == 0);
    }
}

/// The middle of a border line holds one junction per inner column
/// boundary.
proof fn lemma_border_mid_junctions(ws: Seq<int>, l: char, m: char, r: char)
    requires
        ws.len() >= 1,
        l != '─',
        m != '─',
        r != '─',
        m != l,
        m != r,
    ensures
        count_junctions(crate::table::border_mid(ws, m), l, m, r) == ws.len() - 1,
    decreases ws.len(),
{
    if ws.len() == 1 {
        lemma_count_dashes(ws[0] as nat, l, m, r);
        assert(crate::table::dashes(ws[0]) == seq_repeat("─"@, ws[0] as nat));
    } else {
        lemma_border_mid_junctions(ws.drop_last(), l, m, r);
        lemma_count_dashes(ws.last() as nat, l, m, r);
        lemma_count_concat(crate::table::border_mid(ws.drop_last(), m), seq![m], l, m, r);
        lemma_count_concat(
            crate::table::border_mid(ws.drop_last(), m) + seq![m],
            crate::table::dashes(ws.last()),
            l,
            m,
            r,
        );
        assert(seq![m].drop_last() =~= Seq::<char>::empty());
        assert(count_junctions(Seq::<char>::empty(), l, m, r) == 0);
        assert(count_junctions(seq![m], l, m, r) == 1);
    }
}

/// One whole border line holds exactly one junction glyph per column
/// boundary: the two corners plus one for each inner boundary.
proof fn lemma_border_junctions(ws: Seq<int>, l: char, m: char, r: char)
    requires
        ws.len() >= 1,
        l != '─',
        m != '─',
        r != '─',
        m != l,
        m != r,
    ensures
        count_junctions(border_spec(ws, l, m, r), l, m, r) == ws.len() + 1,
{
    lemma_border_mid_junctions(ws, l, m, r);
    lemma_count_concat(seq![l], crate::table::border_mid(ws, m), l, m, r);
    lemma_count_concat(seq![l] + crate::table::border_mid(ws, m), seq![r], l, m, r);
    assert(seq![l].drop_last() =~= Seq::<char>::empty());
    assert(seq![r].drop_last() =~= Seq::<char>::empty());
    assert(count_junctions(Seq::<char>::empty(), l, m, r) == 0);
    assert(count_junctions(seq![l], l, m, r) == 1);
    assert(count_junctions(seq![r], l, m, r) == 1);
}

/// Law: for a buffered table, every column's width is at least three and
/// at least the longest cell content of that column plus two; and each of
/// the three border lines holds exactly one junction glyph per column
/// boundary, `k + 1` of them for `k` columns.
pub proof fn lemma_table_geometry(rows: Seq<Seq<Seq<SpanView>>>)
    requires
        forall|r: int, i: int|
            0 <= r < rows.len() && 0 <= i < rows[r].len()
                ==> crate::text::spans_text_sat_len(#[trigger] rows[r][i]) + 2 <= usize::MAX,
    ensures
        crate::table::col_widths_spec(rows).len() == crate::table::col_count(rows),
        forall|i: int|
            0 <= i < crate::table::col_count(rows) ==> #[trigger] crate::table::col_widths_spec(
                rows,
            )[i] >= 3,
        forall|r: int, i: int|
            0 <= r < rows.len() && 0 <= i < rows[r].len() ==> crate::table::col_widths_spec(
                rows,
            )[i] >= crate::text::spans_text_sat_len(#[trigger] rows[r][i]) + 2,
        crate::table::col_count(rows) >= 1 ==> count_junctions(
            border_spec(crate::table::col_widths_spec(rows), '┌', '┬', '┐'),
            '┌',
            '┬',
            '┐',
        ) == crate::table::col_count(rows) + 1,
        crate::table::col_count(rows) >= 1 ==> count_junctions(
            border_spec(crate::table::col_widths_spec(rows), '├', '┼', '┤'),
            '├',
            '┼',
            '┤',
        ) == crate::table::col_count(rows) + 1,
        crate::table::col_count(rows) >= 1 ==> count_junctions(
            border_spec(crate::table::col_widths_spec(rows), '└', '┴', '┘'),
            '└',
            '┴',
            '┘',
        ) == crate::table::col_count(rows) + 1,
{
    let ws = crate::table::col_widths_spec(rows);
    assert forall|i: int| 0 <= i < crate::table::col_count(rows) implies #[trigger] ws[i]
        >= 3 by {
        lemma_width_min(rows, i);
    }
    assert forall|r: int, i: int|
        0 <= r < rows.len() && 0 <= i < rows[r].len() implies ws[i]
        >= crate::text::spans_text_sat_len(#[trigger] rows[r][i]) + 2 by {
        lemma_col_count_ge_row(rows, r);
        lemma_width_ge_cell(rows, r, i);
    }
    if crate::table::col_count(rows) >= 1 {
        lemma_border_junctions(ws, '┌', '┬', '┐');
        lemma_border_junctions(ws, '├', '┼', '┤');
        lemma_border_junctions(ws, '└', '┴', '┘');
    }
}

} // verus!
