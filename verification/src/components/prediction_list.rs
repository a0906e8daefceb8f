//! The prediction list: the ordered collection as a numbered column of
//! rows, with the focused prediction highlighted.
//!
//! The panel reserves its top row for a header, then one row per prediction
//! in collection order; rows below the available height are simply not
//! drawn.  A row reads `"{1-based index}- {title}"`, and exactly the row
//! whose identifier matches the focused identifier carries the highlighted
//! styling.

use vstd::prelude::*;
use crate::app::App;
use crate::components::Component;
use crate::components::RenderError;
use crate::geometry::Region;
use crate::numtext::spec_udec;
use crate::numtext::u32_dec_string;
use crate::prediction::Prediction;
use crate::prediction::PredictionView;
use crate::prediction::preds_view;
use crate::render::PanelRender;
use crate::render::PanelView;
use crate::render::RowView;
use crate::render::SpanView;
use crate::render::Styling;
use crate::render::TextRow;
use crate::render::TextSpan;
use crate::render::single_span_row;

verus! {

/// A message the application can send the list.
pub enum Action {
    Noop,
    SetPredictions(Vec<Prediction>),
}

/// The list panel.  It can hold its own copy of the collection, but renders
/// from the shared application state, so a frame never shows a stale copy.
pub struct PredictionList {
    predictions: Vec<Prediction>,
}

impl View for PredictionList {
    type V = Seq<PredictionView>;

    closed spec fn view(&self) -> Seq<PredictionView> {
        preds_view(self.predictions@)
    }
}

impl Default for PredictionList {
    fn default() -> (r: Self)
        ensures
            r@ == Seq::<PredictionView>::empty(),
    {
        let r = PredictionList { predictions: Vec::new() };
        proof {
            assert(r@ =~= Seq::<PredictionView>::empty());
        }
        r
    }
}

impl PredictionList {
    /// A list seeded with a collection, or empty.
    pub fn new(predictions: Option<Vec<Prediction>>) -> (r: Self)
        ensures
            match predictions {
                Some(ps) => r@ == preds_view(ps@),
                None => r@ == Seq::<PredictionView>::empty(),
            },
    {
        let r = match predictions {
            Some(ps) => PredictionList { predictions: ps },
            None => PredictionList { predictions: Vec::new() },
        };
        proof {
            assert(preds_view(Seq::<Prediction>::empty()) =~= Seq::<PredictionView>::empty());
        }
        r
    }

    /// Apply a message to the list's own copy of the collection.
    pub fn update(&mut self, action: Action)
        ensures
            action matches Action::Noop ==> final(self)@ == old(self)@,
            action matches Action::SetPredictions(ps) ==> final(self)@ == preds_view(ps@),
    {
        match action {
            Action::Noop => return ,
            Action::SetPredictions(predictions) => self.predictions = predictions,
        };
    }
}

/// How many prediction rows fit below the header.
pub open spec fn spec_shown_count(app: App, area: Region) -> int {
    let n = app.predictions@.len() as int;
    let cap = area.height - 1;
    if n <= cap {
        n
    } else {
        cap
    }
}

/// The region of the list entry at 0-based index `i`: one row below the
/// header and the entries above it, inset two cells on either side.
pub open spec fn spec_entry_region(area: Region, i: int) -> Region {
    if area.width >= 4 {
        Region {
            x: (area.x + 2) as u16,
            y: (area.y + 1 + i) as u16,
            width: (area.width - 4) as u16,
            height: 1,
        }
    } else {
        Region { x: area.x, y: (area.y + 1 + i) as u16, width: 0, height: 1 }
    }
}

/// A list entry's text: `"{1-based index}- {title}"`.
pub open spec fn spec_entry_text(i: int, title: Seq<char>) -> Seq<char> {
    spec_udec(i + 1) + "- "@ + title
}

/// A list entry's styling: highlighted exactly when its identifier is the
/// focused identifier.
pub open spec fn spec_entry_style(p: PredictionView, focused: Option<u64>) -> Styling {
    if focused matches Some(id) && p.id == id {
        Styling::Focused
    } else {
        Styling::Secondary
    }
}

/// The rendered row of the list entry at index `i`.
pub open spec fn spec_entry_row(app: App, area: Region, i: int) -> RowView {
    RowView {
        region: spec_entry_region(area, i),
        centered: false,
        spans: seq![
            SpanView {
                text: spec_entry_text(i, app.predictions@[i]@.title),
                style: spec_entry_style(app.predictions@[i]@, app.focused_prediction_id),
            },
        ],
    }
}

/// The header row: the panel title, centered on the top row.
pub open spec fn spec_list_header(area: Region) -> RowView {
    RowView {
        region: Region { x: area.x, y: area.y, width: area.width, height: 1 },
        centered: true,
        spans: seq![SpanView { text: "Prediction list"@, style: Styling::Plain }],
    }
}

/// The footer row: the key hints, centered on the bottom row.
pub open spec fn spec_list_footer(area: Region) -> RowView {
    RowView {
        region: Region {
            x: area.x,
            y: (area.y + area.height - 1) as u16,
            width: area.width,
            height: 1,
        },
        centered: true,
        spans: seq![
            SpanView { text: "<j/k> Up/down"@, style: Styling::Info },
            SpanView { text: "-"@, style: Styling::Plain },
            SpanView { text: "<esc/q> Exit"@, style: Styling::Alert },
        ],
    }
}

/// Every row the list paints: the header, the entries that fit, and the
/// footer when there is a row left for it.
pub open spec fn spec_list_rows(app: App, area: Region) -> Seq<RowView> {
    if area.height == 0 {
        Seq::empty()
    } else {
        let entries = Seq::new(
            spec_shown_count(app, area) as nat,
            |i: int| spec_entry_row(app, area, i),
        );
        let with_header = seq![spec_list_header(area)] + entries;
        if area.height >= 2 {
            with_header + seq![spec_list_footer(area)]
        } else {
            with_header
        }
    }
}

impl Component for PredictionList {
    /// A bordered box around the header, the entries that fit, and the key
    /// hints.
    open spec fn rendered(&self, area: Region, app: App) -> PanelView {
        PanelView { region: area, bordered: true, rows: spec_list_rows(app, area) }
    }

    open spec fn draw_pre(&self, area: Region, app: App) -> bool {
        area.wf()
    }

    fn draw(&self, area: Region, app: &App) -> (r: Result<PanelRender, RenderError>) {
        let mut rows: Vec<TextRow> = Vec::new();
        if area.height >= 1 {
            rows.push(
                single_span_row(
                    Region { x: area.x, y: area.y, width: area.width, height: 1 },
                    true,
                    String::from_str("Prediction list"),
                    Styling::Plain,
                ),
            );
            let cap: usize = (area.height - 1) as usize;
            let n: usize = app.predictions.len();
            let shown: usize = if n <= cap {
                n
            } else {
                cap
            };
            let mut i: usize = 0;
            while i < shown
                invariant
                    area.wf(),
                    area.height >= 1,
                    shown == spec_shown_count(*app, area),
                    shown <= app.predictions@.len(),
                    shown <= area.height - 1,
                    i <= shown,
                    rows@.len() == 1 + i,
                    rows@[0]@ == spec_list_header(area),
                    forall|j: int| 1 <= j < 1 + i ==> (#[trigger] rows@[j])@ == spec_entry_row(
                        *app,
                        area,
                        j - 1,
                    ),
                decreases shown - i,
            {
                let p = &app.predictions[i];
                let mut text = u32_dec_string((i as u32) + 1);
                text.append("- ");
                text.append(p.get_title().as_str());
                let focused = match app.focused_prediction_id {
                    Some(id) => id == p.get_id(),
                    None => false,
                };
                let style = if focused {
                    Styling::Focused
                } else {
                    Styling::Secondary
                };
                let region = if area.width >= 4 {
                    Region {
                        x: area.x + 2,
                        y: area.y + 1 + (i as u16),
                        width: area.width - 4,
                        height: 1,
                    }
                } else {
                    Region { x: area.x, y: area.y + 1 + (i as u16), width: 0, height: 1 }
                };
                proof {
                    assert(text@ =~= spec_entry_text(i as int, app.predictions@[i as int]@.title));
                }
                rows.push(single_span_row(region, false, text, style));
                proof {
                    assert(rows@[1 + i as int]@ == spec_entry_row(*app, area, i as int));
                }
                i = i + 1;
            }
            if area.height >= 2 {
                let mut spans: Vec<TextSpan> = Vec::new();
                spans.push(TextSpan { text: String::from_str("<j/k> Up/down"), style: Styling::Info });
                spans.push(TextSpan { text: String::from_str("-"), style: Styling::Plain });
                spans.push(TextSpan { text: String::from_str("<esc/q> Exit"), style: Styling::Alert });
                let footer = TextRow {
                    region: Region {
                        x: area.x,
                        y: area.y + area.height - 1,
                        width: area.width,
                        height: 1,
                    },
                    centered: true,
                    spans,
                };
                proof {
                    assert(footer@.spans =~= spec_list_footer(area).spans);
                }
                rows.push(footer);
            }
        }
        let p = PanelRender { region: area, bordered: true, rows };
        proof {
            let s = p@.rows;
            let spec_rows = spec_list_rows(*app, area);
            if area.height >= 1 {
                let n = spec_shown_count(*app, area);
                assert forall|k: int| 0 <= k < s.len() implies s[k] == spec_rows[k] by {
                    if k == 0 {
                        assert(rows@[0]@ == spec_list_header(area));
                    } else if k <= n {
                        assert(rows@[k]@ == spec_entry_row(*app, area, k - 1));
                    } else {
                        assert(rows@[k]@ == spec_list_footer(area));
                    }
                }
                assert(s =~= spec_rows);
            } else {
                assert(s =~= spec_rows);
            }
        }
        Ok(p)
    }
}

/// Whether a row carries the focused styling in any of its spans.
pub open spec fn spec_row_is_focused(r: RowView) -> bool {
    exists|k: int| 0 <= k < r.spans.len() && r.spans[k].style == Styling::Focused
}

/// How many of the rows carry the focused styling.
pub open spec fn spec_focused_row_count(rows: Seq<RowView>) -> int
    decreases rows.len(),
{
    if rows.len() == 0 {
        0
    } else {
        spec_focused_row_count(rows.drop_last()) + if spec_row_is_focused(rows.last()) {
            1int
        } else {
            0int
        }
    }
}

/// Focused rows are counted part by part.
proof fn lemma_focused_count_concat(a: Seq<RowView>, b: Seq<RowView>)
    ensures
        spec_focused_row_count(a + b) == spec_focused_row_count(a) + spec_focused_row_count(b),
    decreases b.len(),
{
    if b.len() == 0 {
        assert(a + b =~= a);
    } else {
        assert((a + b).drop_last() =~= a + b.drop_last());
        assert((a + b).last() == b.last());
        lemma_focused_count_concat(a, b.drop_last());
    }
}

/// Among the first `m` entry rows, exactly one is highlighted when the
/// focused identifier appears among those entries, none otherwise.
proof fn lemma_focused_count_entries(app: App, area: Region, m: int)
    requires
        app.wf(),
        0 <= m <= app.predictions@.len(),
    ensures
        spec_focused_row_count(Seq::new(m as nat, |i: int| spec_entry_row(app, area, i))) == (
        if exists|j: int|
            0 <= j < m && app.focused_prediction_id == Some(
                (#[trigger] app.predictions@[j])@.id,
            ) {
            1int
        } else {
            0int
        }),
    decreases m,
{
    let s = Seq::new(m as nat, |i: int| spec_entry_row(app, area, i));
    if m > 0 {
        let s0 = Seq::new((m - 1) as nat, |i: int| spec_entry_row(app, area, i));
        assert(s.drop_last() =~= s0);
        assert(s.last() == spec_entry_row(app, area, m - 1));
        lemma_focused_count_entries(app, area, m - 1);
        let row = spec_entry_row(app, area, m - 1);
        if app.focused_prediction_id == Some(app.predictions@[m - 1]@.id) {
            assert(spec_row_is_focused(row)) by {
                assert(row.spans[0].style == Styling::Focused);
            }
            assert forall|j: int| 0 <= j < m - 1 implies app.focused_prediction_id != Some(
                (#[trigger] app.predictions@[j])@.id,
            ) by {
                assert(app.predictions@[j]@.id != app.predictions@[m - 1]@.id);
            }
            assert(spec_focused_row_count(s0) == 0);
        } else {
            assert(!spec_row_is_focused(row));
            if exists|j: int|
                0 <= j < m && app.focused_prediction_id == Some(
                    (#[trigger] app.predictions@[j])@.id,
                ) {
                let j = choose|j: int|
                    0 <= j < m && app.focused_prediction_id == Some(
                        (#[trigger] app.predictions@[j])@.id,
                    );
                assert(j < m - 1);
            }
        }
    }
}

/// Exactly one rendered list row is highlighted when the focused
/// identifier belongs to an entry that fits the height, and none
/// otherwise: the header and the footer never count, and identifiers are
/// unique.
pub proof fn lemma_focus_highlight_count(app: App, area: Region)
    requires
        app.wf(),
        area.height >= 1,
    ensures
        spec_focused_row_count(spec_list_rows(app, area)) == (if exists|j: int|
            0 <= j < spec_shown_count(app, area) && app.focused_prediction_id == Some(
                (#[trigger] app.predictions@[j])@.id,
            ) {
            1int
        } else {
            0int
        }),
{
    let n = spec_shown_count(app, area);
    let entries = Seq::new(n as nat, |i: int| spec_entry_row(app, area, i));
    let header = seq![spec_list_header(area)];
    assert(!spec_row_is_focused(spec_list_header(area)));
    assert(spec_focused_row_count(header) == 0) by {
        assert(!spec_row_is_focused(spec_list_header(area)));
        assert(header.last() == spec_list_header(area));
        assert(header.drop_last() =~= Seq::<RowView>::empty());
        assert(spec_focused_row_count(Seq::<RowView>::empty()) == 0);
    }
    lemma_focused_count_concat(header, entries);
    lemma_focused_count_entries(app, area, n);
    if area.height >= 2 {
        let footer = seq![spec_list_footer(area)];
        assert(!spec_row_is_focused(spec_list_footer(area)));
        assert(spec_focused_row_count(footer) == 0) by {
            assert(!spec_row_is_focused(spec_list_footer(area)));
            assert(footer.last() == spec_list_footer(area));
            assert(footer.drop_last() =~= Seq::<RowView>::empty());
            assert(spec_focused_row_count(Seq::<RowView>::empty()) == 0);
        }
        lemma_focused_count_concat(header + entries, footer);
    }
}

/// The same count without the height hedge: when the panel is tall enough
/// for every entry, exactly one row is highlighted iff the focused
/// identifier appears anywhere in the collection.
pub proof fn lemma_focus_highlight_count_all_shown(app: App, area: Region)
    requires
        app.wf(),
        area.height >= 1,
        app.predictions@.len() <= area.height - 1,
    ensures
        spec_focused_row_count(spec_list_rows(app, area)) == (if exists|j: int|
            0 <= j < app.predictions@.len() && app.focused_prediction_id == Some(
                (#[trigger] app.predictions@[j])@.id,
            ) {
            1int
        } else {
            0int
        }),
{
    lemma_focus_highlight_count(app, area);
    assert(spec_shown_count(app, area) == app.predictions@.len());
}

/// Exactly the focused prediction's row is highlighted.  Among the rows
/// that fit, an entry row carries the focused styling exactly when its
/// prediction's identifier is the focused identifier; identifiers are
/// unique, so at most one row does, and a focused identifier that matches
/// no entry highlights none.  The header and footer never carry it.
pub proof fn lemma_focus_highlight(app: App, area: Region)
    requires
        app.wf(),
        area.height >= 1,
    ensures
        forall|j: int| 0 <= j < spec_shown_count(app, area) ==> ((#[trigger] spec_list_rows(
            app,
            area,
        )[1 + j]).spans[0].style == Styling::Focused <==> app.focused_prediction_id == Some(
            app.predictions@[j]@.id,
        )),
        forall|j1: int, j2: int|
            0 <= j1 < spec_shown_count(app, area) && 0 <= j2 < spec_shown_count(app, area)
                && (#[trigger] spec_list_rows(app, area)[1 + j1]).spans[0].style
                == Styling::Focused && (#[trigger] spec_list_rows(app, area)[1 + j2]).spans[0].style
                == Styling::Focused ==> j1 == j2,
        spec_list_header(area).spans[0].style != Styling::Focused,
        forall|k: int| 0 <= k < spec_list_footer(area).spans.len() ==> (
        #[trigger] spec_list_footer(area).spans[k]).style != Styling::Focused,
{
    assert forall|j: int| 0 <= j < spec_shown_count(app, area) implies ((#[trigger] spec_list_rows(
        app,
        area,
    )[1 + j]).spans[0].style == Styling::Focused <==> app.focused_prediction_id == Some(
        app.predictions@[j]@.id,
    )) by {
        assert(spec_list_rows(app, area)[1 + j] == spec_entry_row(app, area, j));
    }
    assert forall|j1: int, j2: int|
        0 <= j1 < spec_shown_count(app, area) && 0 <= j2 < spec_shown_count(app, area) && (
        #[trigger] spec_list_rows(app, area)[1 + j1]).spans[0].style == Styling::Focused && (
        #[trigger] spec_list_rows(app, area)[1 + j2]).spans[0].style
        == Styling::Focused implies j1 == j2 by {
        assert(spec_list_rows(app, area)[1 + j1] == spec_entry_row(app, area, j1));
        assert(spec_list_rows(app, area)[1 + j2] == spec_entry_row(app, area, j2));
        assert(app.focused_prediction_id == Some(app.predictions@[j1]@.id));
        assert(app.focused_prediction_id == Some(app.predictions@[j2]@.id));
        if j1 < j2 {
            assert(app.predictions@[j1]@.id != app.predictions@[j2]@.id);
        }
        if j2 < j1 {
            assert(app.predictions@[j2]@.id != app.predictions@[j1]@.id);
        }
    }
}

} // verus!
