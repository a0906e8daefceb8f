//! The graph placeholder: a bordered box reserving the region where
//! certainty trends will one day be plotted.  It consumes no application
//! state; it exists so the frame partition has its third consumer.

use vstd::prelude::*;
use crate::app::App;
use crate::components::Component;
use crate::components::RenderError;
use crate::geometry::Region;
use crate::render::PanelRender;
use crate::render::PanelView;
use crate::render::RowView;
use crate::render::SpanView;
use crate::render::Styling;
use crate::render::TextRow;
use crate::render::single_span_row;

verus! {

/// The placeholder panel for future analytics.
#[derive(Clone, Copy, PartialEq, Eq, Structural, Debug)]
pub struct Graph {}

impl Graph {
    pub fn new() -> (r: Self)
        ensures
            r == (Graph {  }),
    {
        Graph {  }
    }
}

impl Default for Graph {
    fn default() -> (r: Self)
        ensures
            r == (Graph {  }),
    {
        Graph {  }
    }
}

/// The placeholder label's row: centered on the top row of the region.
pub open spec fn spec_graph_rows(area: Region) -> Seq<RowView> {
    if area.height >= 1 {
        seq![
            RowView {
                region: Region { x: area.x, y: area.y, width: area.width, height: 1 },
                centered: true,
                spans: seq![SpanView { text: "Graph area"@, style: Styling::Plain }],
            },
        ]
    } else {
        Seq::empty()
    }
}

impl Component for Graph {
    /// A bordered box holding the centered placeholder label.
    open spec fn rendered(&self, area: Region, app: App) -> PanelView {
        PanelView { region: area, bordered: true, rows: spec_graph_rows(area) }
    }

    open spec fn draw_pre(&self, area: Region, app: App) -> bool {
        true
    }

    fn draw(&self, area: Region, app: &App) -> (r: Result<PanelRender, RenderError>) {
        let mut rows: Vec<TextRow> = Vec::new();
        if area.height >= 1 {
            rows.push(
                single_span_row(
                    Region { x: area.x, y: area.y, width: area.width, height: 1 },
                    true,
                    String::from_str("Graph area"),
                    Styling::Plain,
                ),
            );
        }
        let p = PanelRender { region: area, bordered: true, rows };
        proof {
            assert(p@.rows =~= spec_graph_rows(area));
        }
        Ok(p)
    }
}

} // verus!
