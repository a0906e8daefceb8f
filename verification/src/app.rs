//! The application: the owned prediction collection, the focus selection,
//! and the state machine the key dispatcher drives.
//!
//! The loop itself lives in the binary, because each tick performs terminal
//! work; every decision it takes stands here.  One tick renders a frame from
//! the current state, waits a bounded 16 ms for one input event, and
//! dispatches a key press; `q` moves the machine from `Running` to
//! `Exiting`, every other key changes nothing.

use vstd::prelude::*;
use crate::components::Component;
use crate::components::graph::Graph;
use crate::components::prediction_details::PredictionDetails;
use crate::components::prediction_list::PredictionList;
use crate::geometry::Region;
use crate::geometry::dashboard_regions;
use crate::geometry::spec_dashboard_regions;
use crate::input::InputError;
use crate::input::KeyPress;
use crate::input::EVENT_POLL_MS;
use crate::input::poll_input;
use crate::input::read_input;
use crate::prediction::Prediction;
use crate::prediction::PredictionView;
use crate::prediction::preds_view;
use crate::prediction::spec_lookup;
use crate::date::SimpleDate;
use crate::date::current_date_or;
use crate::render::FrameRender;
use crate::render::FrameView;
use crate::render::PanelRender;
use crate::render::TextRow;

verus! {

/// The screen the dashboard shows.  A single variant today, held as an
/// enumeration so the dispatcher stays open to further screens.
#[derive(Clone, Copy, PartialEq, Eq, Structural, Debug)]
pub enum ScreenMode {
    PredictionList,
}

impl Default for ScreenMode {
    fn default() -> (r: Self)
        ensures
            r == ScreenMode::PredictionList,
    {
        ScreenMode::PredictionList
    }
}

/// The shared application state: read by every component once per frame,
/// mutated only by the key dispatcher.
pub struct App {
    /// Whether the machine has reached its terminal `Exiting` state.
    pub exit: bool,
    pub mode: ScreenMode,
    /// The full ordered collection; insertion order defines list order and
    /// numbering.
    pub predictions: Vec<Prediction>,
    /// The focused prediction, by identifier.  An identifier that matches
    /// no entry is treated as no focus by the components.
    pub focused_prediction_id: Option<u64>,
}

impl App {
    /// The state invariant: every prediction is well formed and the
    /// identifiers are unique within the collection.
    pub open spec fn wf(&self) -> bool {
        (forall|i: int|
            0 <= i < self.predictions@.len() ==> (#[trigger] self.predictions@[i]).wf())
            && (forall|i: int, j: int|
            0 <= i < j < self.predictions@.len() ==> (#[trigger] self.predictions@[i]@.id) != (
            #[trigger] self.predictions@[j]@.id))
    }

    /// Decide at run time whether the state invariant holds: every
    /// prediction well formed and the identifiers pairwise distinct.  The
    /// library's constructors establish the invariant; this check is for a
    /// caller that assembled a state by hand.
    pub fn is_well_formed(&self) -> (r: bool)
        ensures
            r == self.wf(),
    {
        let n: usize = self.predictions.len();
        let mut i: usize = 0;
        while i < n
            invariant
                n == self.predictions@.len(),
                i <= n,
                forall|a: int| 0 <= a < i ==> (#[trigger] self.predictions@[a]).wf(),
                forall|a: int, b: int|
                    0 <= a < b < i ==> (#[trigger] self.predictions@[a]@.id) != (
                    #[trigger] self.predictions@[b]@.id),
            decreases n - i,
        {
            if !self.predictions[i].is_well_formed() {
                proof {
                    assert(!self.predictions@[i as int].wf());
                }
                return false;
            }
            let mut j: usize = 0;
            while j < i
                invariant
                    n == self.predictions@.len(),
                    j <= i < n,
                    forall|b: int|
                        0 <= b < j ==> (#[trigger] self.predictions@[b]@.id)
                            != self.predictions@[i as int]@.id,
                decreases i - j,
            {
                if self.predictions[j].get_id() == self.predictions[i].get_id() {
                    proof {
                        assert(self.predictions@[j as int]@.id
                            == self.predictions@[i as int]@.id);
                    }
                    return false;
                }
                j = j + 1;
            }
            i = i + 1;
        }
        true
    }

    /// The prediction the focus resolves to: the first entry carrying the
    /// focused identifier, or nothing when no identifier is set or none
    /// matches.
    pub open spec fn spec_focused(self) -> Option<PredictionView> {
        match self.focused_prediction_id {
            Some(id) => spec_lookup(preds_view(self.predictions@), id),
            None => None,
        }
    }

    /// Resolve the focus against the live collection.  A well-formed state
    /// hands back a well-formed prediction.
    pub fn focused_prediction(&self) -> (r: Option<&Prediction>)
        ensures
            (r is Some) == (self.spec_focused() is Some),
            r matches Some(p) ==> Some(p@) == self.spec_focused(),
            self.wf() ==> (r matches Some(p) ==> p.wf()),
    {
        match self.focused_prediction_id {
            None => None,
            Some(id) => {
                let ghost ps = preds_view(self.predictions@);
                proof {
                    assert(ps.skip(0) =~= ps);
                }
                let mut i: usize = 0;
                while i < self.predictions.len()
                    invariant
                        i <= self.predictions@.len(),
                        self.focused_prediction_id == Some(id),
                        ps == preds_view(self.predictions@),
                        spec_lookup(ps, id) == spec_lookup(ps.skip(i as int), id),
                    decreases self.predictions@.len() - i,
                {
                    if self.predictions[i].get_id() == id {
                        proof {
                            assert(ps.skip(i as int)[0] == ps[i as int]);
                            assert(ps[i as int] == self.predictions@[i as int]@);
                            assert(spec_lookup(ps.skip(i as int), id) == Some(ps[i as int]));
                        }
                        return Some(&self.predictions[i]);
                    }
                    proof {
                        assert(ps.skip(i as int)[0] == ps[i as int]);
                        assert(ps.skip(i as int).drop_first() =~= ps.skip(i as int + 1));
                    }
                    i = i + 1;
                }
                proof {
                    assert(ps.skip(self.predictions@.len() as int) =~= Seq::<
                        PredictionView,
                    >::empty());
                }
                None
            },
        }
    }

    /// Move the machine to its terminal state.
    fn exit(&mut self)
        ensures
            final(self).exit == true,
            final(self).mode == old(self).mode,
            final(self).predictions == old(self).predictions,
            final(self).focused_prediction_id == old(self).focused_prediction_id,
    {
        self.exit = true;
    }

    /// Dispatch one key press.  In `Running` mode `q` is the quit key;
    /// every other key leaves the state and all data unchanged.
    pub fn handle_key_event(&mut self, key: KeyPress)
        ensures
            final(self).exit == (old(self).exit || key == KeyPress::Char('q')),
            final(self).mode == old(self).mode,
            final(self).predictions == old(self).predictions,
            final(self).focused_prediction_id == old(self).focused_prediction_id,
    {
        match self.mode {
            ScreenMode::PredictionList => match key {
                KeyPress::Char('q') => self.exit(),
                _ => {},
            },
        }
    }

    /// One tick's worth of input handling: wait at most 16 ms for an event
    /// and dispatch it if it is a key press.  Whatever arrives, only the
    /// exit flag can change, and once set it stays set; a failure of the
    /// input channel is fatal, is handed to the caller, and leaves the
    /// state exactly as it was.
    pub fn handle_events(&mut self) -> (r: Result<(), InputError>)
        ensures
            final(self).mode == old(self).mode,
            final(self).predictions == old(self).predictions,
            final(self).focused_prediction_id == old(self).focused_prediction_id,
            old(self).exit ==> final(self).exit,
            r is Err ==> *final(self) == *old(self),
    {
        if poll_input(EVENT_POLL_MS)? {
            match read_input()? {
                Some(key) => self.handle_key_event(key),
                None => {},
            }
        }
        Ok(())
    }
}

/// What one frame shows for state `app` in terminal area `area`: each
/// component's rendering in its region of the partition.
pub open spec fn spec_frame(
    app: App,
    area: Region,
    list: PredictionList,
    graph: Graph,
    details: PredictionDetails,
) -> FrameView {
    let regs = spec_dashboard_regions(area);
    FrameView {
        list: list.rendered(regs.list, app),
        graph: graph.rendered(regs.graph, app),
        details: details.rendered(regs.details, app),
    }
}

impl App {
    /// Compose one frame: partition the current terminal area and ask each
    /// component, in paint order, what it renders there from this shared
    /// state.  A component that failed to render would contribute an empty
    /// panel rather than abort the frame; with these components that never
    /// occurs, so the frame is exactly what the specification fixes.
    pub fn compose_frame(
        &self,
        list: &PredictionList,
        graph: &Graph,
        details: &PredictionDetails,
        area: Region,
    ) -> (r: FrameRender)
        requires
            area.wf(),
            self.wf(),
        ensures
            r@ == spec_frame(*self, area, *list, *graph, *details),
    {
        let regs = dashboard_regions(area);
        let list_panel = match list.draw(regs.list, self) {
            Ok(p) => p,
            Err(_) => PanelRender { region: regs.list, bordered: false, rows: Vec::<TextRow>::new() },
        };
        let graph_panel = match graph.draw(regs.graph, self) {
            Ok(p) => p,
            Err(_) => PanelRender { region: regs.graph, bordered: false, rows: Vec::<TextRow>::new() },
        };
        let details_panel = match details.draw(regs.details, self) {
            Ok(p) => p,
            Err(_) => PanelRender {
                region: regs.details,
                bordered: false,
                rows: Vec::<TextRow>::new(),
            },
        };
        FrameRender { list: list_panel, graph: graph_panel, details: details_panel }
    }
}

/// Layout idempotence: with an unchanged terminal size and unchanged
/// application state, two consecutive frames are identical, region
/// boundaries and rendered content both — the frame is a function of the
/// current size and state alone.
pub proof fn lemma_frame_idempotent(
    app: App,
    area: Region,
    list: PredictionList,
    graph: Graph,
    details: PredictionDetails,
    f1: FrameView,
    f2: FrameView,
)
    requires
        f1 == spec_frame(app, area, list, graph, details),
        f2 == spec_frame(app, area, list, graph, details),
    ensures
        f1 == f2,
{
}

impl Default for App {
    /// The seeded startup state: two sample predictions, created today,
    /// with focus on the first.
    fn default() -> (r: Self)
        ensures
            r.exit == false,
            r.mode == ScreenMode::PredictionList,
            r.focused_prediction_id == Some(0u64),
            r.predictions@.len() == 2,
            r.predictions@[0]@.id == 0,
            r.predictions@[0]@.title == "Culinary prediction"@,
            r.predictions@[0]@.description == "The cheese will be good"@,
            r.predictions@[0]@.certainty_hundredths == 40,
            r.predictions@[0]@.due is None,
            r.predictions@[1]@.id == 1,
            r.predictions@[1]@.title == "Economic prediction"@,
            r.predictions@[1]@.description == "I will win the lotto"@,
            r.predictions@[1]@.certainty_hundredths == 10,
            r.predictions@[1]@.due is None,
            r.wf(),
    {
        let today = current_date_or(SimpleDate { year: 1970, month: 1, day: 1 });
        let p0 = Prediction::new(
            0,
            "Culinary prediction",
            "The cheese will be good",
            40,
            today,
            None,
        ).unwrap();
        let p1 = Prediction::new(1, "Economic prediction", "I will win the lotto", 10, today, None)
            .unwrap();
        let mut predictions: Vec<Prediction> = Vec::new();
        predictions.push(p0);
        predictions.push(p1);
        App {
            exit: false,
            mode: ScreenMode::PredictionList,
            focused_prediction_id: Some(0),
            predictions,
        }
    }
}

} // verus!
