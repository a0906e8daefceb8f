//! A blank column: the simplest component, kept as the seed for future
//! panels.  It paints nothing and reacts to nothing.

use vstd::prelude::*;
use crate::app::App;
use crate::components::Component;
use crate::components::RenderError;
use crate::geometry::Region;
use crate::input::KeyPress;
use crate::render::PanelRender;
use crate::render::PanelView;
use crate::render::TextRow;

verus! {

/// An empty panel.
#[derive(Clone, Copy, PartialEq, Eq, Structural, Debug)]
pub struct Column {}

impl Column {
    pub fn new() -> (r: Self)
        ensures
            r == (Column {  }),
    {
        Column {  }
    }
}

impl Default for Column {
    fn default() -> (r: Self)
        ensures
            r == (Column {  }),
    {
        Column {  }
    }
}

impl Component for Column {
    /// A blank column paints nothing.
    open spec fn rendered(&self, area: Region, app: App) -> PanelView {
        PanelView { region: area, bordered: false, rows: Seq::empty() }
    }

    open spec fn draw_pre(&self, area: Region, app: App) -> bool {
        true
    }

    fn draw(&self, area: Region, app: &App) -> (r: Result<PanelRender, RenderError>) {
        let rows: Vec<TextRow> = Vec::new();
        let p = PanelRender { region: area, bordered: false, rows };
        proof {
            assert(p@.rows =~= Seq::<crate::render::RowView>::empty());
        }
        Ok(p)
    }

    /// The column ignores every key, the quit key included: quitting is
    /// the application dispatcher's decision.
    fn handle_key_events(&mut self, key: KeyPress) {
        match key {
            KeyPress::Char('q') => {},
            _ => {},
        }
    }
}

} // verus!
