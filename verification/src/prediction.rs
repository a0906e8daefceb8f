//! The `Prediction` entity: a titled claim with a description, a certainty
//! score, a creation date and an optional due date.
//!
//! A certainty is a whole number of hundredths of the unit interval, and the
//! validated constructor enforces the entity's one invariant: it lies in
//! `0..=100` hundredths, that is in `[0, 1]` inclusive.  A prediction is
//! immutable after construction.

use vstd::prelude::*;
use crate::app::App;
use crate::components::Component;
use crate::components::RenderError;
use crate::date::SimpleDate;
use crate::date::format_date;
use crate::date::spec_date_text;
use crate::geometry::Region;
use crate::numtext::certainty_text;
use crate::numtext::spec_certainty_text;
use crate::render::PanelRender;
use crate::render::PanelView;
use crate::render::RowView;
use crate::render::SpanView;
use crate::render::Styling;
use crate::render::TextRow;
use crate::render::TextSpan;

verus! {

/// The failure a rejected construction returns.
#[derive(Clone, PartialEq, Eq, Debug)]
pub struct PredictionParseError {
    message: String,
}

/// The spec-level value of a `PredictionParseError`.
#[verifier::ext_equal]
pub ghost struct PredictionParseErrorView {
    pub message: Seq<char>,
}

impl View for PredictionParseError {
    type V = PredictionParseErrorView;

    closed spec fn view(&self) -> PredictionParseErrorView {
        PredictionParseErrorView { message: self.message@ }
    }
}

impl PredictionParseError {
    fn new(message: String) -> (r: Self)
        ensures
            r@.message == message@,
    {
        PredictionParseError { message }
    }

    /// The human-readable description of the failure.
    pub fn message(&self) -> (r: &str)
        ensures
            r@ == self@.message,
    {
        self.message.as_str()
    }
}

/// The message a certainty of `c` hundredths is rejected with.
pub open spec fn spec_certainty_error_text(c: int) -> Seq<char> {
    "Certainty values must be between 0 and 1 inclusive - received "@ + spec_certainty_text(c)
}

/// A titled claim with a certainty score and temporal metadata.  Unique
/// identifiers are the owning collection's concern; the entity itself only
/// guards its certainty range.
#[derive(PartialEq, Eq, Debug)]
pub struct Prediction {
    /// Stable identifier, unique within a session.
    pub id: u64,
    pub title: String,
    description: String,
    certainty_hundredths: u8,
    created: SimpleDate,
    due: Option<SimpleDate>,
}

/// The spec-level value of a `Prediction`.
#[verifier::ext_equal]
pub ghost struct PredictionView {
    pub id: u64,
    pub title: Seq<char>,
    pub description: Seq<char>,
    pub certainty_hundredths: int,
    pub created: SimpleDate,
    pub due: Option<SimpleDate>,
}

impl View for Prediction {
    type V = PredictionView;

    closed spec fn view(&self) -> PredictionView {
        PredictionView {
            id: self.id,
            title: self.title@,
            description: self.description@,
            certainty_hundredths: self.certainty_hundredths as int,
            created: self.created,
            due: self.due,
        }
    }
}

impl PredictionView {
    /// The entity invariant: the certainty lies in `[0, 1]` and the dates
    /// are renderable.
    pub open spec fn wf(self) -> bool {
        0 <= self.certainty_hundredths <= 100 && self.created.wf() && (self.due matches Some(d)
            ==> d.wf())
    }
}

impl Prediction {
    /// The entity invariant, on the exec value.
    pub open spec fn wf(&self) -> bool {
        self@.wf()
    }

    /// The validated constructor.  The certainty is given in hundredths of
    /// the unit interval; construction succeeds exactly when it lies in
    /// `0..=100`, that is when the score lies in `[0, 1]` inclusive.  The
    /// creation date is injected by the caller, so the entity itself never
    /// reads the clock.
    pub fn new(
        id: u64,
        title: &str,
        description: &str,
        certainty_hundredths: i32,
        created: SimpleDate,
        due: Option<SimpleDate>,
    ) -> (r: Result<Self, PredictionParseError>)
        requires
            created.wf(),
            due matches Some(d) ==> d.wf(),
        ensures
            r is Ok <==> 0 <= certainty_hundredths <= 100,
            r matches Ok(p) ==> p@ == (PredictionView {
                id,
                title: title@,
                description: description@,
                certainty_hundredths: certainty_hundredths as int,
                created,
                due,
            }) && p.wf(),
            r matches Err(e) ==> e@.message == spec_certainty_error_text(
                certainty_hundredths as int,
            ),
    {
        if Prediction::validate_certainty(certainty_hundredths) {
            Ok(
                Prediction {
                    id,
                    title: title.to_owned(),
                    description: description.to_owned(),
                    certainty_hundredths: certainty_hundredths as u8,
                    created,
                    due,
                },
            )
        } else {
            let mut message = String::from_str(
                "Certainty values must be between 0 and 1 inclusive - received ",
            );
            let shown = certainty_text(certainty_hundredths);
            message.append(shown.as_str());
            Err(PredictionParseError::new(message))
        }
    }

    /// Whether a certainty in hundredths lies in the accepted range.
    fn validate_certainty(certainty_hundredths: i32) -> (r: bool)
        ensures
            r == (0 <= certainty_hundredths <= 100),
    {
        return 0 <= certainty_hundredths && certainty_hundredths <= 100;
    }

    /// The stable identifier.
    pub fn get_id(&self) -> (r: u64)
        ensures
            r == self@.id,
    {
        self.id
    }

    /// The title text.
    pub fn get_title(&self) -> (r: &String)
        ensures
            r@ == self@.title,
    {
        &self.title
    }

    /// Whether the entity invariant holds, decided at run time.  Values
    /// from the validated constructor always satisfy it.
    pub fn is_well_formed(&self) -> (r: bool)
        ensures
            r == self@.wf(),
    {
        self.certainty_hundredths <= 100 && self.created.is_renderable() && (match &self.due {
            Some(d) => d.is_renderable(),
            None => true,
        })
    }

    /// The certainty, rendered as the unit-interval decimal it stands for.
    pub fn get_certainty(&self) -> (r: String)
        ensures
            r@ == spec_certainty_text(self@.certainty_hundredths),
    {
        certainty_text(self.certainty_hundredths as i32)
    }

    /// The description text.
    pub fn get_description(&self) -> (r: String)
        ensures
            r@ == self@.description,
    {
        self.description.clone()
    }

    /// The creation date, rendered as `month/day/year`.
    pub fn get_formatted_created_date(&self) -> (r: String)
        requires
            self.wf(),
        ensures
            r@ == spec_date_text(self@.created),
    {
        format_date(&self.created)
    }

    /// The due date rendered as `month/day/year`, or the literal `None`
    /// when the prediction has none.
    pub fn get_formatted_due_date(&self) -> (r: String)
        requires
            self.wf(),
        ensures
            r@ == spec_due_text(self@.due),
    {
        match self.due {
            Some(value) => format_date(&value),
            None => String::from_str("None"),
        }
    }
}

impl Clone for Prediction {
    /// A clone carries the same value; components receive clones or
    /// borrows, never ownership.
    fn clone(&self) -> (r: Self)
        ensures
            r@ == self@,
    {
        Prediction {
            id: self.id,
            title: self.title.clone(),
            description: self.description.clone(),
            certainty_hundredths: self.certainty_hundredths,
            created: self.created,
            due: self.due,
        }
    }
}

/// The text the due-date field renders as: the date when present, the
/// literal `None` otherwise.
pub open spec fn spec_due_text(due: Option<SimpleDate>) -> Seq<char> {
    match due {
        Some(d) => spec_date_text(d),
        None => "None"@,
    }
}

/// The spans of a prediction's one-line summary: each field value behind
/// its label.
pub open spec fn spec_summary_spans(p: PredictionView) -> Seq<SpanView> {
    seq![
        SpanView { text: "- "@, style: Styling::Secondary },
        SpanView { text: p.description, style: Styling::Plain },
        SpanView { text: " - Certainty: "@, style: Styling::Label },
        SpanView { text: spec_certainty_text(p.certainty_hundredths), style: Styling::Plain },
        SpanView { text: " - Created: "@, style: Styling::Label },
        SpanView { text: spec_date_text(p.created), style: Styling::Plain },
        SpanView { text: " - Due: "@, style: Styling::Label },
        SpanView { text: spec_due_text(p.due), style: Styling::Plain },
    ]
}

/// The summary's single row, on the top row of the region, inset two cells
/// on either side.
pub open spec fn spec_summary_rows(p: PredictionView, area: Region) -> Seq<RowView> {
    if area.height >= 1 {
        seq![
            RowView {
                region: if area.width >= 4 {
                    Region {
                        x: (area.x + 2) as u16,
                        y: area.y,
                        width: (area.width - 4) as u16,
                        height: 1,
                    }
                } else {
                    Region { x: area.x, y: area.y, width: 0, height: 1 }
                },
                centered: false,
                spans: spec_summary_spans(p),
            },
        ]
    } else {
        Seq::empty()
    }
}

impl Component for Prediction {
    /// A prediction renders itself as a one-line summary of its fields.
    open spec fn rendered(&self, area: Region, app: App) -> PanelView {
        PanelView { region: area, bordered: false, rows: spec_summary_rows(self@, area) }
    }

    open spec fn draw_pre(&self, area: Region, app: App) -> bool {
        area.wf() && self.wf()
    }

    fn draw(&self, area: Region, app: &App) -> (r: Result<PanelRender, RenderError>) {
        let mut rows: Vec<TextRow> = Vec::new();
        if area.height >= 1 {
            let mut spans: Vec<TextSpan> = Vec::new();
            spans.push(TextSpan { text: String::from_str("- "), style: Styling::Secondary });
            spans.push(TextSpan { text: self.get_description(), style: Styling::Plain });
            spans.push(
                TextSpan { text: String::from_str(" - Certainty: "), style: Styling::Label },
            );
            spans.push(TextSpan { text: self.get_certainty(), style: Styling::Plain });
            spans.push(TextSpan { text: String::from_str(" - Created: "), style: Styling::Label });
            spans.push(
                TextSpan { text: self.get_formatted_created_date(), style: Styling::Plain },
            );
            spans.push(TextSpan { text: String::from_str(" - Due: "), style: Styling::Label });
            spans.push(TextSpan { text: self.get_formatted_due_date(), style: Styling::Plain });
            let region = if area.width >= 4 {
                Region { x: area.x + 2, y: area.y, width: area.width - 4, height: 1 }
            } else {
                Region { x: area.x, y: area.y, width: 0, height: 1 }
            };
            let row = TextRow { region, centered: false, spans };
            proof {
                assert(row@.spans =~= spec_summary_spans(self@));
            }
            rows.push(row);
        }
        let p = PanelRender { region: area, bordered: false, rows };
        proof {
            assert(p@.rows =~= spec_summary_rows(self@, area));
        }
        Ok(p)
    }
}

/// The spec-level values of a sequence of predictions.
pub open spec fn preds_view(ps: Seq<Prediction>) -> Seq<PredictionView> {
    ps.map_values(|p: Prediction| p@)
}

/// Look an identifier up in a collection: the first prediction whose
/// identifier matches, if any.
pub open spec fn spec_lookup(ps: Seq<PredictionView>, id: u64) -> Option<PredictionView>
    decreases ps.len(),
{
    if ps.len() == 0 {
        None
    } else if ps[0].id == id {
        Some(ps[0])
    } else {
        spec_lookup(ps.drop_first(), id)
    }
}


} // verus!
