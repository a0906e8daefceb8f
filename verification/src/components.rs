//! The component abstraction: the capability set every visual panel
//! supports, so the application can treat panels uniformly.
//!
//! A component renders into an assigned region of the surface and may react
//! to input.  `draw` is pure with respect to the application state: it
//! receives a read-only borrow, paints nothing itself, and returns the rows
//! to paint; what it returns is fixed by the `rendered` specification, so
//! identical inputs always produce identical output.

pub mod column;
pub mod graph;
pub mod prediction_details;
pub mod prediction_list;

use vstd::prelude::*;
use crate::app::App;
use crate::geometry::Region;
use crate::input::InputError;
use crate::input::KeyPress;
use crate::input::EVENT_POLL_MS;
use crate::input::poll_input;
use crate::input::read_input;
use crate::render::PanelRender;
use crate::render::PanelView;

verus! {

/// A failure of a component's one-time setup.  Setup errors are fatal to
/// startup.
#[derive(Clone, PartialEq, Eq, Debug)]
pub struct InitError {
    pub message: String,
}

/// A failure to paint.  Render errors are swallowed per component: one
/// panel failing must not blank the others.
#[derive(Clone, PartialEq, Eq, Debug)]
pub struct RenderError {
    pub message: String,
}

/// A visual and interactive element of the dashboard.  Implementors can be
/// handed a region of the screen each frame and render themselves into it
/// from a read-only view of the shared application state.
pub trait Component: Sized {
    /// What the component paints into `area` for state `app`: a function
    /// of its inputs alone, so two draws with identical inputs are
    /// identical.
    spec fn rendered(&self, area: Region, app: App) -> PanelView;

    /// What `draw` asks of its inputs.
    spec fn draw_pre(&self, area: Region, app: App) -> bool;

    /// One-time setup hook; the default does nothing and cannot fail.  A
    /// panel that overrides it may fail, and such a failure is fatal to
    /// startup.
    fn init(&mut self) -> (r: Result<(), InitError>)
        default_ensures
            r is Ok,
            *final(self) == *old(self),
    {
        Ok(())
    }

    /// Input hook for panels with local interaction; the default ignores
    /// the key and changes nothing.  The dashboard dispatches keys
    /// centrally in the application, but the abstraction stays open to
    /// per-component dispatch.
    fn handle_key_events(&mut self, key: KeyPress)
        default_ensures
            *final(self) == *old(self),
    {
    }

    /// Wait a bounded 16 ms for one event and hand a key press to
    /// `handle_key_events`.  A failure of the input channel is handed to
    /// the caller, and leaves the component as it was: the key hook only
    /// runs on a delivered key press.
    fn handle_events(&mut self) -> (r: Result<(), InputError>)
        default_ensures
            r is Err ==> *final(self) == *old(self),
    {
        if poll_input(EVENT_POLL_MS)? {
            match read_input()? {
                Some(key) => self.handle_key_events(key),
                None => {},
            }
        }
        Ok(())
    }

    /// Compute what to paint inside `area`.  Must not mutate application
    /// state, must stay within its region, and returns exactly what
    /// `rendered` fixes, so a draw can never surprise: rendering succeeds
    /// and is idempotent.
    fn draw(&self, area: Region, app: &App) -> (r: Result<PanelRender, RenderError>)
        requires
            self.draw_pre(area, *app),
        ensures
            r matches Ok(p) && p@ == self.rendered(area, *app),
    ;
}

} // verus!
