//! The detail panel: the fields of the focused prediction, or an explicit
//! `None` placeholder in every field when the focus resolves to nothing.
//!
//! Focus is resolved against the live collection at render time, never a
//! cached copy, so the panel cannot show a stale entry.  Each field is a
//! bold label row over a value row, three rows apart, inside a bordered
//! box; rows below the available height are not drawn.

use vstd::prelude::*;
use crate::app::App;
use crate::components::Component;
use crate::components::RenderError;
use crate::geometry::Region;
use crate::numtext::spec_certainty_text;
use crate::date::spec_date_text;
use crate::prediction::Prediction;
use crate::prediction::PredictionView;
use crate::prediction::spec_due_text;
use crate::render::PanelRender;
use crate::render::PanelView;
use crate::render::RowView;
use crate::render::SpanView;
use crate::render::Styling;
use crate::render::TextRow;
use crate::render::single_span_row;

verus! {

/// The detail panel.  It can hold its own copy of a prediction, but
/// renders from the shared application state, so a frame never shows a
/// stale entry.
pub struct PredictionDetails {
    prediction: Option<Prediction>,
}

impl View for PredictionDetails {
    type V = Option<PredictionView>;

    closed spec fn view(&self) -> Option<PredictionView> {
        match self.prediction {
            Some(p) => Some(p@),
            None => None,
        }
    }
}

impl Default for PredictionDetails {
    fn default() -> (r: Self)
        ensures
            r@ is None,
    {
        PredictionDetails { prediction: None }
    }
}

impl PredictionDetails {
    /// A panel seeded with a copy of a prediction, or empty.
    pub fn new(prediction: Option<&Prediction>) -> (r: Self)
        ensures
            match prediction {
                Some(p) => r@ == Some(p@),
                None => r@ is None,
            },
    {
        PredictionDetails {
            prediction: match prediction {
                Some(p) => Some(p.clone()),
                None => None,
            },
        }
    }
}

/// The five field texts the panel shows.  When the focus resolves to
/// nothing, every field reads `None`.
#[verifier::ext_equal]
pub ghost struct DetailsFields {
    pub title: Seq<char>,
    pub description: Seq<char>,
    pub certainty: Seq<char>,
    pub created: Seq<char>,
    pub due: Seq<char>,
}

/// What each field reads for state `app`.
pub open spec fn spec_details_fields(app: App) -> DetailsFields {
    match app.spec_focused() {
        None => DetailsFields {
            title: "None"@,
            description: "None"@,
            certainty: "None"@,
            created: "None"@,
            due: "None"@,
        },
        Some(p) => DetailsFields {
            title: p.title,
            description: p.description,
            certainty: spec_certainty_text(p.certainty_hundredths),
            created: spec_date_text(p.created),
            due: spec_due_text(p.due),
        },
    }
}

/// The region of the panel row at offset `row`, inset two cells on either
/// side.
pub open spec fn spec_field_region(area: Region, row: int) -> Region {
    if area.width >= 4 {
        Region {
            x: (area.x + 2) as u16,
            y: (area.y + row) as u16,
            width: (area.width - 4) as u16,
            height: 1,
        }
    } else {
        Region { x: area.x, y: (area.y + row) as u16, width: 0, height: 1 }
    }
}

/// The header row: the panel title, centered on the top row.
pub open spec fn spec_details_header(area: Region) -> RowView {
    RowView {
        region: Region { x: area.x, y: area.y, width: area.width, height: 1 },
        centered: true,
        spans: seq![SpanView { text: "Prediction details"@, style: Styling::Plain }],
    }
}

/// A bold label row for field `k`.
pub open spec fn spec_label_row(area: Region, k: int, text: Seq<char>) -> RowView {
    RowView {
        region: spec_field_region(area, 1 + 3 * k),
        centered: false,
        spans: seq![SpanView { text, style: Styling::Label }],
    }
}

/// A value row for field `k`.
pub open spec fn spec_value_row(area: Region, k: int, text: Seq<char>) -> RowView {
    RowView {
        region: spec_field_region(area, 2 + 3 * k),
        centered: false,
        spans: seq![SpanView { text, style: Styling::Plain }],
    }
}

/// A row that is painted only when it fits the height.
pub open spec fn seq_row_if(cond: bool, r: RowView) -> Seq<RowView> {
    if cond {
        seq![r]
    } else {
        Seq::empty()
    }
}

/// Every row the panel paints: the header, then label and value rows for
/// title, description, certainty, created date and due date, each included
/// only when it fits the height.
pub open spec fn spec_details_rows(app: App, area: Region) -> Seq<RowView> {
    let f = spec_details_fields(app);
    let h = area.height as int;
    seq_row_if(h >= 1, spec_details_header(area)) + seq_row_if(h >= 2, spec_label_row(area, 0, "Title:"@))
        + seq_row_if(h >= 3, spec_value_row(area, 0, f.title)) + seq_row_if(
        h >= 5,
        spec_label_row(area, 1, "Description:"@),
    ) + seq_row_if(h >= 6, spec_value_row(area, 1, f.description)) + seq_row_if(
        h >= 8,
        spec_label_row(area, 2, "Certainty:"@),
    ) + seq_row_if(h >= 9, spec_value_row(area, 2, f.certainty)) + seq_row_if(
        h >= 11,
        spec_label_row(area, 3, "Created:"@),
    ) + seq_row_if(h >= 12, spec_value_row(area, 3, f.created)) + seq_row_if(
        h >= 14,
        spec_label_row(area, 4, "Due:"@),
    ) + seq_row_if(h >= 15, spec_value_row(area, 4, f.due))
}

impl Component for PredictionDetails {
    /// A bordered box holding the header and the five labeled fields.
    open spec fn rendered(&self, area: Region, app: App) -> PanelView {
        PanelView { region: area, bordered: true, rows: spec_details_rows(app, area) }
    }

    open spec fn draw_pre(&self, area: Region, app: App) -> bool {
        area.wf() && app.wf()
    }

    fn draw(&self, area: Region, app: &App) -> (r: Result<PanelRender, RenderError>) {
        let (title, description, certainty, created, due) = match app.focused_prediction() {
            None => (
                String::from_str("None"),
                String::from_str("None"),
                String::from_str("None"),
                String::from_str("None"),
                String::from_str("None"),
            ),
            Some(p) => (
                p.get_title().clone(),
                p.get_description(),
                p.get_certainty(),
                p.get_formatted_created_date(),
                p.get_formatted_due_date(),
            ),
        };
        let mut rows: Vec<TextRow> = Vec::new();
        if area.height >= 1 {
            rows.push(
                single_span_row(
                    Region { x: area.x, y: area.y, width: area.width, height: 1 },
                    true,
                    String::from_str("Prediction details"),
                    Styling::Plain,
                ),
            );
        }
        if area.height >= 2 {
            rows.push(label_row(area, 0, String::from_str("Title:")));
        }
        if area.height >= 3 {
            rows.push(value_row(area, 0, title));
        }
        if area.height >= 5 {
            rows.push(label_row(area, 1, String::from_str("Description:")));
        }
        if area.height >= 6 {
            rows.push(value_row(area, 1, description));
        }
        if area.height >= 8 {
            rows.push(label_row(area, 2, String::from_str("Certainty:")));
        }
        if area.height >= 9 {
            rows.push(value_row(area, 2, certainty));
        }
        if area.height >= 11 {
            rows.push(label_row(area, 3, String::from_str("Created:")));
        }
        if area.height >= 12 {
            rows.push(value_row(area, 3, created));
        }
        if area.height >= 14 {
            rows.push(label_row(area, 4, String::from_str("Due:")));
        }
        if area.height >= 15 {
            rows.push(value_row(area, 4, due));
        }
        let p = PanelRender { region: area, bordered: true, rows };
        proof {
            assert(p@.rows =~= spec_details_rows(*app, area));
        }
        Ok(p)
    }
}

/// Build the label row for field `k`.
fn label_row(area: Region, k: u16, text: String) -> (r: TextRow)
    requires
        area.wf(),
        k <= 4,
        1 + 3 * k < area.height,
    ensures
        r@ == spec_label_row(area, k as int, text@),
{
    single_span_row(field_region(area, 1 + 3 * k), false, text, Styling::Label)
}

/// Build the value row for field `k`.
fn value_row(area: Region, k: u16, text: String) -> (r: TextRow)
    requires
        area.wf(),
        k <= 4,
        2 + 3 * k < area.height,
    ensures
        r@ == spec_value_row(area, k as int, text@),
{
    single_span_row(field_region(area, 2 + 3 * k), false, text, Styling::Plain)
}

/// Compute the region of the panel row at offset `row`.
fn field_region(area: Region, row: u16) -> (r: Region)
    requires
        area.wf(),
        row < area.height,
    ensures
        r == spec_field_region(area, row as int),
{
    if area.width >= 4 {
        Region { x: area.x + 2, y: area.y + row, width: area.width - 4, height: 1 }
    } else {
        Region { x: area.x, y: area.y + row, width: 0, height: 1 }
    }
}

/// The placeholder law: when the focus resolves to nothing every field
/// reads the literal `None`, and a present prediction with no due date
/// reads `None` in the due field alone, whatever its other fields hold.
pub proof fn lemma_details_placeholder(app: App)
    ensures
        app.spec_focused() is None ==> spec_details_fields(app) == (DetailsFields {
            title: "None"@,
            description: "None"@,
            certainty: "None"@,
            created: "None"@,
            due: "None"@,
        }),
        app.spec_focused() matches Some(p) && p.due is None ==> spec_details_fields(app).due
            == "None"@,
{
}

} // verus!
