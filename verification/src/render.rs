//! The render model: what a component paints, as plain data.
//!
//! A component does not touch the terminal.  Its `draw` returns a
//! `PanelRender`: an optional border around its region and a list of text
//! rows, each a run of styled spans placed on one line of the grid.  The
//! binary turns this data into terminal paint calls; everything up to that
//! point is verified against the spec-level views below.

use vstd::prelude::*;
use crate::geometry::Region;

verus! {

/// The visual role of a span.  Colors are a presentation concern left to the
/// painter; what the model fixes is the distinction between the roles, above
/// all between a focused and an unfocused list row.
#[derive(Clone, Copy, PartialEq, Eq, Structural, Debug)]
pub enum Styling {
    /// Ordinary text.
    Plain,
    /// A bold field label.
    Label,
    /// The highlighted row of the focused prediction.
    Focused,
    /// An unhighlighted prediction row.
    Secondary,
    /// A hint in the help footer.
    Info,
    /// The exit hint in the help footer.
    Alert,
}

/// A run of equally styled text within a row.
#[derive(Clone, PartialEq, Eq, Debug)]
pub struct TextSpan {
    pub text: String,
    pub style: Styling,
}

/// The spec-level value of a `TextSpan`.
#[verifier::ext_equal]
pub ghost struct SpanView {
    pub text: Seq<char>,
    pub style: Styling,
}

impl View for TextSpan {
    type V = SpanView;

    open spec fn view(&self) -> SpanView {
        SpanView { text: self.text@, style: self.style }
    }
}

/// One line of text placed on the grid: its region is a single row of cells,
/// and its spans are laid out left to right, centered when `centered` holds.
#[derive(Clone, PartialEq, Eq, Debug)]
pub struct TextRow {
    pub region: Region,
    pub centered: bool,
    pub spans: Vec<TextSpan>,
}

/// The spec-level value of a `TextRow`.
#[verifier::ext_equal]
pub ghost struct RowView {
    pub region: Region,
    pub centered: bool,
    pub spans: Seq<SpanView>,
}

impl View for TextRow {
    type V = RowView;

    open spec fn view(&self) -> RowView {
        RowView {
            region: self.region,
            centered: self.centered,
            spans: self.spans@.map_values(|s: TextSpan| s@),
        }
    }
}

/// Everything one component paints into its region in one frame.
#[derive(Clone, PartialEq, Eq, Debug)]
pub struct PanelRender {
    pub region: Region,
    pub bordered: bool,
    pub rows: Vec<TextRow>,
}

/// The spec-level value of a `PanelRender`.
#[verifier::ext_equal]
pub ghost struct PanelView {
    pub region: Region,
    pub bordered: bool,
    pub rows: Seq<RowView>,
}

impl View for PanelRender {
    type V = PanelView;

    open spec fn view(&self) -> PanelView {
        PanelView {
            region: self.region,
            bordered: self.bordered,
            rows: self.rows@.map_values(|r: TextRow| r@),
        }
    }
}

/// A whole frame: the three panels, in the order they are painted.
#[derive(Clone, PartialEq, Eq, Debug)]
pub struct FrameRender {
    pub list: PanelRender,
    pub graph: PanelRender,
    pub details: PanelRender,
}

/// The spec-level value of a `FrameRender`.
#[verifier::ext_equal]
pub ghost struct FrameView {
    pub list: PanelView,
    pub graph: PanelView,
    pub details: PanelView,
}

impl View for FrameRender {
    type V = FrameView;

    open spec fn view(&self) -> FrameView {
        FrameView { list: self.list@, graph: self.graph@, details: self.details@ }
    }
}

/// A row holding one span of `text` with `style`, on row `y` of the grid.
pub fn single_span_row(region: Region, centered: bool, text: String, style: Styling) -> (r:
    TextRow)
    ensures
        r@ == (RowView {
            region,
            centered,
            spans: seq![SpanView { text: text@, style }],
        }),
{
    let ghost tv = text@;
    let mut spans: Vec<TextSpan> = Vec::new();
    spans.push(TextSpan { text, style });
    let r = TextRow { region, centered, spans };
    proof {
        assert(r@.spans =~= seq![SpanView { text: tv, style }]);
    }
    r
}

} // verus!
