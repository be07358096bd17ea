//! The loop of the page that shows the window without drawing to it.

use crate::event::Event;
use crate::event::WindowId;
use crate::event_loop::views;
use crate::event_loop::Action;
use crate::event_loop::ActionView;
use crate::surface::PhysicalSize;
use vstd::prelude::*;

verus! {

/// Width of the canvas in the page, in pixels.
pub const CANVAS_WIDTH: u32 = 450;

/// Height of the canvas in the page, in pixels.
pub const CANVAS_HEIGHT: u32 = 500;

/// The `id` of the page element that the canvas is appended to.
pub const CANVAS_PARENT_ID: &'static str = "wasm_example";

/// The size that the window is given in a page, where the page's style
/// cannot size it.
pub fn canvas_size() -> (size: PhysicalSize)
    ensures
        size.width == CANVAS_WIDTH,
        size.height == CANVAS_HEIGHT,
        size.is_drawable(),
{
    PhysicalSize { width: CANVAS_WIDTH, height: CANVAS_HEIGHT }
}

/// The action after an event: `Exit` when the window `window` is asked to
/// end the program, and `Wait` otherwise.
pub open spec fn next_action(window: WindowId, event: Event) -> ActionView {
    match event {
        Event::WindowEvent { window_id, event } => if window_id == window
            && event.spec_is_exit_request() {
            ActionView::Exit
        } else {
            ActionView::Wait
        },
        _ => ActionView::Wait,
    }
}

/// The actions of a run: one for each event, up to and with the first
/// `Exit`.
pub open spec fn trace(window: WindowId, events: Seq<Event>) -> Seq<ActionView>
    decreases events.len(),
{
    if events.len() == 0 {
        Seq::empty()
    } else {
        let action = next_action(window, events[0]);
        if action is Exit {
            seq![action]
        } else {
            seq![action] + trace(window, events.drop_first())
        }
    }
}

/// Handles one event of the loop around the window `window`.
pub fn dispatch(window: WindowId, event: &Event) -> (action: Action)
    ensures
        action@ == next_action(window, *event),
{
    match event {
        Event::WindowEvent { window_id, event } => {
            if *window_id == window && event.is_exit_request() {
                Action::Exit
            } else {
                Action::Wait
            }
        },
        _ => Action::Wait,
    }
}

/// Handles a run of events in order and stops after the first that ends the
/// program.
pub fn run(window: WindowId, events: &[Event]) -> (actions: Vec<Action>)
    ensures
        views(actions@) == trace(window, events@),
{
    let mut actions: Vec<Action> = Vec::new();
    let mut i: usize = 0;
    proof {
        assert(events@.skip(0) =~= events@);
        assert(views(actions@) + trace(window, events@) =~= trace(window, events@));
    }
    while i < events.len()
        invariant
            i <= events@.len(),
            trace(window, events@) == views(actions@) + trace(window, events@.skip(i as int)),
        decreases events@.len() - i,
    {
        let ghost rest = events@.skip(i as int);
        let action = dispatch(window, &events[i]);
        proof {
            assert(rest[0] == events@[i as int]);
            assert(rest.drop_first() =~= events@.skip(i + 1));
            assert(views(actions@.push(action)) =~= views(actions@).push(action@));
        }
        let exit = matches!(action, Action::Exit);
        actions.push(action);
        if exit {
            proof {
                assert(trace(window, rest) =~= seq![ActionView::Exit]);
                assert(views(actions@) =~= trace(window, events@));
            }
            return actions;
        }
        i = i + 1;
        proof {
            assert(trace(window, rest) =~= seq![action@] + trace(window, events@.skip(i as int)));
            assert(views(actions@) + trace(window, events@.skip(i as int)) =~= trace(
                window,
                events@,
            ));
        }
    }
    proof {
        assert(events@.skip(i as int) =~= Seq::<Event>::empty());
        assert(views(actions@) + Seq::<ActionView>::empty() =~= views(actions@));
    }
    actions
}

} // verus!
