//! The event loop: what the renderer does about each event, and what a run
//! of events comes to.
//!
//! The loop is turned by a host. For each event the renderer changes its
//! state and names one action; the host carries the action out. Asked to
//! acquire a frame, the host hands the surface's answer back as the next
//! event.

use crate::event::Event;
use crate::event::WindowId;
use crate::frame::mesh_frame;
use crate::frame::Frame;
use crate::frame::FrameView;
use crate::surface::ErrorClass;
use crate::surface::State;
use crate::surface::SurfaceError;
use vstd::prelude::*;

verus! {

/// What the host is to do after an event.
#[derive(Clone, Debug, PartialEq, Eq)]
pub enum Action {
    /// Nothing; wait for the next event.
    Wait,
    /// End the program.
    Exit,
    /// Configure the surface as the state's configuration says.
    Configure,
    /// Ask the surface for the texture of the next frame, and hand its
    /// answer back as [`Event::FrameAcquired`].
    AcquireFrame,
    /// Record the frame into the acquired texture, submit and present it.
    Present(Frame),
    /// Report the error. The frame is dropped.
    Report(SurfaceError),
}

/// An action as a value of specifications.
pub enum ActionView {
    Wait,
    Exit,
    Configure,
    AcquireFrame,
    Present(FrameView),
    Report(SurfaceError),
}

impl View for Action {
    type V = ActionView;

    open spec fn view(&self) -> ActionView {
        match self {
            Action::Wait => ActionView::Wait,
            Action::Exit => ActionView::Exit,
            Action::Configure => ActionView::Configure,
            Action::AcquireFrame => ActionView::AcquireFrame,
            Action::Present(frame) => ActionView::Present(frame@),
            Action::Report(error) => ActionView::Report(*error),
        }
    }
}

/// The views of a run of actions.
pub open spec fn views(actions: Seq<Action>) -> Seq<ActionView> {
    actions.map_values(|action: Action| action@)
}

/// The state after an event.
///
/// A new size of the renderer's window is taken over if it can be drawn to.
/// A lost surface is given its last size again. Nothing else changes the
/// state.
pub open spec fn next_state(state: State, window: WindowId, event: Event) -> State {
    match event {
        Event::WindowEvent { window_id, event } => {
            if window_id == window && !event.spec_is_exit_request() {
                match event.spec_new_size() {
                    Some(size) => if size.is_drawable() {
                        state.resized(size)
                    } else {
                        state
                    },
                    None => state,
                }
            } else {
                state
            }
        },
        Event::FrameAcquired(Err(error)) => match error.class() {
            ErrorClass::Recoverable => state.resized(state.size),
            _ => state,
        },
        _ => state,
    }
}

/// The action after an event.
///
/// Of its own window's events the renderer answers a request to end with
/// `Exit`, a drawable new size with `Configure` and a request to redraw with
/// `AcquireFrame`. A frame's texture is drawn to and presented. Without a
/// texture, a recoverable error has the surface configured anew, a fatal one
/// ends the program and a transient one is reported. Everything else is
/// waited out.
pub open spec fn next_action(state: State, window: WindowId, event: Event) -> ActionView {
    match event {
        Event::WindowEvent { window_id, event } => {
            if window_id != window {
                ActionView::Wait
            } else if event.spec_is_exit_request() {
                ActionView::Exit
            } else {
                match event.spec_new_size() {
                    Some(size) => if size.is_drawable() {
                        ActionView::Configure
                    } else {
                        ActionView::Wait
                    },
                    None => ActionView::Wait,
                }
            }
        },
        Event::RedrawRequested(window_id) => if window_id == window {
            ActionView::AcquireFrame
        } else {
            ActionView::Wait
        },
        Event::FrameAcquired(Ok(_)) => ActionView::Present(mesh_frame(state.num_indices)),
        Event::FrameAcquired(Err(error)) => match error.class() {
            ErrorClass::Recoverable => ActionView::Configure,
            ErrorClass::Fatal => ActionView::Exit,
            ErrorClass::Transient => ActionView::Report(error),
        },
        Event::Other => ActionView::Wait,
    }
}

/// The actions of a run: one for each event, up to and with the first
/// `Exit`. Events after it are not looked at.
pub open spec fn trace(state: State, window: WindowId, events: Seq<Event>) -> Seq<ActionView>
    decreases events.len(),
{
    if events.len() == 0 {
        Seq::empty()
    } else {
        let action = next_action(state, window, events[0]);
        if action is Exit {
            seq![action]
        } else {
            seq![action] + trace(next_state(state, window, events[0]), window, events.drop_first())
        }
    }
}

/// The state at the end of a run.
pub open spec fn final_state(state: State, window: WindowId, events: Seq<Event>) -> State
    decreases events.len(),
{
    if events.len() == 0 {
        state
    } else if next_action(state, window, events[0]) is Exit {
        next_state(state, window, events[0])
    } else {
        final_state(next_state(state, window, events[0]), window, events.drop_first())
    }
}

/// Handles one event of the loop around the window `window`.
pub fn dispatch(state: &mut State, window: WindowId, event: &Event) -> (action: Action)
    requires
        old(state).size.is_drawable(),
    ensures
        *final(state) == next_state(*old(state), window, *event),
        action@ == next_action(*old(state), window, *event),
        final(state).size.is_drawable(),
        old(state).wf() ==> final(state).wf(),
{
    match event {
        Event::WindowEvent { window_id, event } => {
            if *window_id != window {
                return Action::Wait;
            }
            if state.input(event) {
                return Action::Wait;
            }
            if event.is_exit_request() {
                return Action::Exit;
            }
            match event.new_size() {
                Some(size) => {
                    if size.is_drawable() {
                        state.resize(size);
                        Action::Configure
                    } else {
                        Action::Wait
                    }
                },
                None => Action::Wait,
            }
        },
        Event::RedrawRequested(window_id) => {
            if *window_id == window {
                state.update();
                Action::AcquireFrame
            } else {
                Action::Wait
            }
        },
        Event::FrameAcquired(acquired) => {
            match state.render(*acquired) {
                Ok(frame) => Action::Present(frame),
                Err(error) => match error.class() {
                    ErrorClass::Recoverable => {
                        let size = state.size;
                        state.resize(size);
                        Action::Configure
                    },
                    ErrorClass::Fatal => Action::Exit,
                    ErrorClass::Transient => Action::Report(error),
                },
            }
        },
        Event::Other => Action::Wait,
    }
}

/// Handles a run of events in order and stops after the first that ends the
/// program.
pub fn run(state: &mut State, window: WindowId, events: &[Event]) -> (actions: Vec<Action>)
    requires
        old(state).size.is_drawable(),
    ensures
        views(actions@) == trace(*old(state), window, events@),
        *final(state) == final_state(*old(state), window, events@),
        final(state).size.is_drawable(),
        old(state).wf() ==> final(state).wf(),
{
    let mut actions: Vec<Action> = Vec::new();
    let mut i: usize = 0;
    proof {
        assert(events@.skip(0) =~= events@);
        assert(views(actions@) + trace(*state, window, events@) =~= trace(
            *state,
            window,
            events@,
        ));
    }
    while i < events.len()
        invariant
            i <= events@.len(),
            state.size.is_drawable(),
            old(state).wf() ==> state.wf(),
            trace(*old(state), window, events@) == views(actions@) + trace(
                *state,
                window,
                events@.skip(i as int),
            ),
            final_state(*old(state), window, events@) == final_state(
                *state,
                window,
                events@.skip(i as int),
            ),
        decreases events@.len() - i,
    {
        let ghost before = *state;
        let ghost rest = events@.skip(i as int);
        let action = dispatch(state, window, &events[i]);
        proof {
            assert(rest[0] == events@[i as int]);
            assert(rest.drop_first() =~= events@.skip(i + 1));
            assert(views(actions@.push(action)) =~= views(actions@).push(action@));
        }
        let exit = matches!(action, Action::Exit);
        actions.push(action);
        if exit {
            proof {
                assert(trace(before, window, rest) =~= seq![ActionView::Exit]);
                assert(views(actions@) =~= trace(*old(state), window, events@));
            }
            return actions;
        }
        i = i + 1;
        proof {
            assert(trace(before, window, rest) =~= seq![action@] + trace(
                *state,
                window,
                events@.skip(i as int),
            ));
            assert(views(actions@) + trace(*state, window, events@.skip(i as int)) =~= trace(
                *old(state),
                window,
                events@,
            ));
        }
    }
    proof {
        assert(events@.skip(i as int) =~= Seq::<Event>::empty());
        assert(views(actions@) + Seq::<ActionView>::empty() =~= views(actions@));
    }
    actions
}

/// A run handles at most one event for each action, and only its last action
/// can be `Exit`.
pub proof fn lemma_nothing_follows_exit(state: State, window: WindowId, events: Seq<Event>, i: int)
    requires
        0 <= i < trace(state, window, events).len(),
    ensures
        trace(state, window, events).len() <= events.len(),
        trace(state, window, events)[i] is Exit ==> i == trace(state, window, events).len() - 1,
    decreases events.len(),
{
    if events.len() > 0 && !(next_action(state, window, events[0]) is Exit) {
        let next = next_state(state, window, events[0]);
        if i > 0 {
            lemma_nothing_follows_exit(next, window, events.drop_first(), i - 1);
        } else if trace(next, window, events.drop_first()).len() > 0 {
            lemma_nothing_follows_exit(next, window, events.drop_first(), 0);
        }
    }
}

/// When the surface is lost, the one action is to configure it, and it is
/// configured to the size it had: the state keeps its size, and its
/// configuration has that size and is otherwise as it was. The run goes on
/// from there, so the configuration comes before the next frame is asked
/// for.
pub proof fn lemma_lost_surface_is_configured_anew(
    state: State,
    window: WindowId,
    rest: Seq<Event>,
)
    ensures
        ({
            let lost = Event::FrameAcquired(Err(SurfaceError::Lost));
            let next = next_state(state, window, lost);
            &&& next_action(state, window, lost) == ActionView::Configure
            &&& next == state.resized(state.size)
            &&& next.size == state.size
            &&& next.config.width == state.size.width
            &&& next.config.height == state.size.height
            &&& state.surface_wf() ==> next == state
            &&& trace(state, window, seq![lost] + rest) == seq![ActionView::Configure] + trace(
                next,
                window,
                rest,
            )
            &&& trace(state, window, seq![lost, Event::RedrawRequested(window)] + rest) == seq![
                ActionView::Configure,
                ActionView::AcquireFrame,
            ] + trace(next, window, rest)
        }),
{
    let lost = Event::FrameAcquired(Err(SurfaceError::Lost));
    let redraw = Event::RedrawRequested(window);
    let next = next_state(state, window, lost);
    assert((seq![lost] + rest).drop_first() =~= rest);
    assert((seq![lost, redraw] + rest).drop_first() =~= seq![redraw] + rest);
    assert((seq![redraw] + rest).drop_first() =~= rest);
    assert(trace(next, window, seq![redraw] + rest) =~= seq![ActionView::AcquireFrame] + trace(
        next,
        window,
        rest,
    ));
    assert(trace(state, window, seq![lost, redraw] + rest) =~= seq![
        ActionView::Configure,
        ActionView::AcquireFrame,
    ] + trace(next, window, rest));
}

/// When the surface is out of memory, the run ends: its last action is
/// `Exit`, and whatever events follow are not handled, so no frame is asked
/// for again.
pub proof fn lemma_out_of_memory_ends_run(
    state: State,
    window: WindowId,
    before: Seq<Event>,
    after: Seq<Event>,
)
    ensures
        ({
            let exhausted = Event::FrameAcquired(Err(SurfaceError::OutOfMemory));
            &&& next_action(state, window, exhausted) == ActionView::Exit
            &&& trace(state, window, before + seq![exhausted] + after) == trace(
                state,
                window,
                before + seq![exhausted],
            )
            &&& final_state(state, window, before + seq![exhausted] + after) == final_state(
                state,
                window,
                before + seq![exhausted],
            )
            &&& trace(state, window, before + seq![exhausted]).len() > 0
            &&& trace(state, window, before + seq![exhausted]).last() == ActionView::Exit
        }),
    decreases before.len(),
{
    let exhausted = Event::FrameAcquired(Err(SurfaceError::OutOfMemory));
    let short = before + seq![exhausted];
    let long = before + seq![exhausted] + after;
    assert(short[0] == long[0]);
    if before.len() == 0 {
        assert(short[0] == exhausted);
    } else if !(next_action(state, window, before[0]) is Exit) {
        let next = next_state(state, window, before[0]);
        lemma_out_of_memory_ends_run(next, window, before.drop_first(), after);
        assert(short.drop_first() =~= before.drop_first() + seq![exhausted]);
        assert(long.drop_first() =~= before.drop_first() + seq![exhausted] + after);
    }
}

} // verus!
