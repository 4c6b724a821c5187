use vstd::prelude::*;
use crate::game::{adjusted_charge, Game};
use crate::input::{InputEvent, Key};
use crate::particle::{Charge, Particle};
use crate::toolbar::{selection_after, toolbar_left, Toolbar};

verus! {

/// What the event loop has to do at once after an event has been handled.
#[derive(Clone, Copy, Debug, PartialEq, Eq, Structural)]
pub enum Action {
    /// Leave the event loop.
    Quit,
    /// Report the field strength at the pointer.
    Probe { x: i32, y: i32 },
    /// Report that a charge was placed.
    Placed { charge: Charge },
    /// The press went to the toolbar; nothing to report.
    ToolbarPressed,
    /// Report that the next charge will have `steps` elementary charges.
    Selected { steps: i64 },
    /// Nothing to do.
    Idle,
}

/// How much of the window is out of date. Field lines are traced anew only
/// when everything is redrawn.
#[derive(Clone, Copy, Debug, PartialEq, Eq, Structural)]
pub enum Redraw {
    Nothing,
    /// The toolbar only.
    Toolbar,
    /// The canvas with its icons and field lines, and the toolbar on it.
    Everything,
}

/// The mathematical content of a session.
pub struct SessionView {
    /// The charges placed so far, oldest first.
    pub charges: Seq<Charge>,
    /// The magnitude the next charge will get, in elementary charges.
    pub selected_charge: int,
    /// The toolbar entry picked last.
    pub toolbar_selection: Option<Particle>,
    /// What has to be redrawn when the pending events are all handled.
    pub pending: Redraw,
}

/// A press left of the toolbar places a charge; any other goes to the
/// toolbar.
pub open spec fn on_canvas(x: int, width: int) -> bool {
    0 <= x < toolbar_left(width)
}

/// What is out of date once `more` is out of date besides `pending`.
pub open spec fn merged(pending: Redraw, more: Redraw) -> Redraw {
    if pending == Redraw::Everything || more == Redraw::Everything {
        Redraw::Everything
    } else if pending == Redraw::Toolbar || more == Redraw::Toolbar {
        Redraw::Toolbar
    } else {
        Redraw::Nothing
    }
}

/// The session after `event` on a canvas of the given size, and what the
/// event loop has to do at once.
pub open spec fn respond(s: SessionView, event: InputEvent, width: int, height: int) -> (
    SessionView,
    Action,
) {
    match event {
        InputEvent::Quit => (s, Action::Quit),
        InputEvent::MouseMotion { x, y } => (s, Action::Probe { x, y }),
        InputEvent::MouseButtonDown { x, y } => if on_canvas(x as int, width) {
            let charge = Charge { x, y, steps: s.selected_charge as i64 };
            (
                SessionView {
                    charges: s.charges.push(charge),
                    pending: Redraw::Everything,
                    ..s
                },
                Action::Placed { charge },
            )
        } else {
            (
                SessionView {
                    toolbar_selection: selection_after(
                        s.toolbar_selection,
                        width,
                        height,
                        x as int,
                        y as int,
                    ),
                    pending: merged(s.pending, Redraw::Toolbar),
                    ..s
                },
                Action::ToolbarPressed,
            )
        },
        InputEvent::KeyDown { key } => if key == Key::Q {
            (s, Action::Quit)
        } else {
            let steps = adjusted_charge(s.selected_charge, key);
            (SessionView { selected_charge: steps, ..s }, Action::Selected { steps: steps as i64 })
        },
        InputEvent::KeyUp { .. } => (s, Action::Idle),
        InputEvent::Other => (s, Action::Idle),
    }
}

/// The session after a batch of events, handled in order.
pub open spec fn respond_all(
    s: SessionView,
    events: Seq<InputEvent>,
    width: int,
    height: int,
) -> SessionView
    decreases events.len(),
{
    if events.len() == 0 {
        s
    } else {
        respond(respond_all(s, events.drop_last(), width, height), events.last(), width, height).0
    }
}

/// The state of a running visualizer: the field model, the toolbar, and what
/// of the window is out of date.
pub struct Session {
    game: Game,
    toolbar: Toolbar,
    pending: Redraw,
}

impl View for Session {
    type V = SessionView;

    closed spec fn view(&self) -> SessionView {
        SessionView {
            charges: self.game.charges(),
            selected_charge: self.game.selected_charge(),
            toolbar_selection: self.toolbar.selected(),
            pending: self.pending,
        }
    }
}

impl Session {
    /// An empty canvas, a neutral next charge, nothing selected, and a window
    /// that has yet to be drawn.
    pub fn new() -> (session: Session)
        ensures
            session@ == (SessionView {
                charges: Seq::empty(),
                selected_charge: 0,
                toolbar_selection: None,
                pending: Redraw::Everything,
            }),
    {
        Session { game: Game::default(), toolbar: Toolbar::default(), pending: Redraw::Everything }
    }

    /// Handles one input event on a canvas of the given size. Nothing is
    /// redrawn yet: what the event has put out of date is kept for
    /// [`Session::end_frame`].
    pub fn handle_event(&mut self, event: InputEvent, width: u32, height: u32) -> (action: Action)
        ensures
            (final(self)@, action) == respond(old(self)@, event, width as int, height as int),
    {
        match event {
            InputEvent::Quit => Action::Quit,
            InputEvent::MouseMotion { x, y } => Action::Probe { x, y },
            InputEvent::MouseButtonDown { x, y } => {
                if x >= 0 && (x as u64) < (width as u64) * 9 / 10 {
                    let charge = self.game.handle_mouse_down(x, y);
                    self.pending = Redraw::Everything;
                    Action::Placed { charge }
                } else {
                    self.toolbar.handle_mouse_down(width, height, x, y);
                    self.pending = self.pending.merge(Redraw::Toolbar);
                    Action::ToolbarPressed
                }
            },
            InputEvent::KeyDown { key } => {
                match key {
                    Key::Q => Action::Quit,
                    _ => {
                        let steps = self.game.handle_keydown(key);
                        Action::Selected { steps }
                    },
                }
            },
            InputEvent::KeyUp { key: _ } => Action::Idle,
            InputEvent::Other => Action::Idle,
        }
    }

    /// Ends a frame: says what has to be redrawn now that the pending events
    /// are handled, and starts the next frame with nothing out of date.
    pub fn end_frame(&mut self) -> (redraw: Redraw)
        ensures
            redraw == old(self)@.pending,
            final(self)@ == (SessionView { pending: Redraw::Nothing, ..old(self)@ }),
    {
        let redraw = self.pending;
        self.pending = Redraw::Nothing;
        redraw
    }

    /// The field model.
    pub fn game(&self) -> (game: &Game)
        ensures
            game.charges() == self@.charges,
            game.selected_charge() == self@.selected_charge,
    {
        &self.game
    }

    /// The toolbar.
    pub fn toolbar(&self) -> (toolbar: &Toolbar)
        ensures
            toolbar.selected() == self@.toolbar_selection,
    {
        &self.toolbar
    }
}

impl Redraw {
    /// What is out of date once `more` is out of date besides `self`.
    pub fn merge(self, more: Redraw) -> (both: Redraw)
        ensures
            both == merged(self, more),
    {
        match (self, more) {
            (Redraw::Everything, _) => Redraw::Everything,
            (_, Redraw::Everything) => Redraw::Everything,
            (Redraw::Toolbar, _) => Redraw::Toolbar,
            (_, Redraw::Toolbar) => Redraw::Toolbar,
            _ => Redraw::Nothing,
        }
    }
}

/// No event moves, changes or removes a charge: after any event the charges
/// placed before are still there, in their order, with at most one new charge
/// behind them.
pub proof fn lemma_charges_only_grow(s: SessionView, event: InputEvent, width: int, height: int)
    ensures
        ({
            let after = respond(s, event, width, height).0.charges;
            &&& s.charges.is_prefix_of(after)
            &&& after.len() <= s.charges.len() + 1
        }),
{
    let after = respond(s, event, width, height).0.charges;
    assert(s.charges =~= after.subrange(0, s.charges.len() as int));
}

/// However many events a frame handles, the field lines are traced anew at
/// its end at most once, and exactly when the window was out of date before
/// or one of the events placed a charge.
pub proof fn lemma_one_redraw_per_frame(
    s: SessionView,
    events: Seq<InputEvent>,
    width: int,
    height: int,
)
    ensures
        ({
            let after = respond_all(s, events, width, height);
            &&& after.pending == Redraw::Everything <==> s.pending == Redraw::Everything
                || after.charges.len() > s.charges.len()
            &&& s.charges.is_prefix_of(after.charges)
        }),
    decreases events.len(),
{
    if events.len() > 0 {
        let before = respond_all(s, events.drop_last(), width, height);
        lemma_one_redraw_per_frame(s, events.drop_last(), width, height);
        lemma_charges_only_grow(before, events.last(), width, height);
        let after = respond(before, events.last(), width, height).0;
        assert(s.charges =~= after.charges.subrange(0, s.charges.len() as int)) by {
            assert(before.charges =~= after.charges.subrange(0, before.charges.len() as int));
            assert(s.charges =~= before.charges.subrange(0, s.charges.len() as int));
        }
    } else {
        assert(s.charges =~= s.charges.subrange(0, s.charges.len() as int));
    }
}

} // verus!
