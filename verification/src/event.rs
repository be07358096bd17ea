//! What the window system reports.

use crate::surface::PhysicalSize;
use crate::surface::SurfaceError;
use vstd::prelude::*;

verus! {

/// Names a window.
#[derive(Clone, Copy, Debug, PartialEq, Eq, Structural)]
pub struct WindowId(pub u64);

/// Whether a key went down or up.
#[derive(Clone, Copy, Debug, PartialEq, Eq, Structural)]
pub enum ElementState {
    Pressed,
    Released,
}

/// The meaning of a key, as far as the renderer tells keys apart.
#[derive(Clone, Copy, Debug, PartialEq, Eq, Structural)]
pub enum VirtualKeyCode {
    Escape,
    Other,
}

/// A key going down or up.
#[derive(Clone, Copy, Debug, PartialEq, Eq, Structural)]
pub struct KeyboardInput {
    pub state: ElementState,
    /// The key's meaning, where the platform gives one.
    pub virtual_keycode: Option<VirtualKeyCode>,
}

/// Something that happened to a window.
#[derive(Clone, Copy, Debug, PartialEq, Eq, Structural)]
pub enum WindowEvent {
    /// The user asked for the window to be closed.
    CloseRequested,
    KeyboardInput { input: KeyboardInput },
    /// The drawable area has a new size.
    Resized(PhysicalSize),
    /// The window moved to a display of another pixel density and has the
    /// new size `new_inner_size`.
    ScaleFactorChanged { new_inner_size: PhysicalSize },
    CursorMoved,
    /// Anything else.
    Other,
}

/// What the event loop hands to the renderer.
#[derive(Clone, Copy, Debug, PartialEq, Eq)]
pub enum Event {
    WindowEvent { window_id: WindowId, event: WindowEvent },
    /// The window's contents are to be drawn anew.
    RedrawRequested(WindowId),
    /// The surface's answer to a request for the texture of the next frame.
    FrameAcquired(Result<(), SurfaceError>),
    /// Anything else.
    Other,
}

impl WindowEvent {
    /// The event asks the program to end: the window is to be closed, or
    /// Escape went down.
    pub open spec fn spec_is_exit_request(self) -> bool {
        match self {
            WindowEvent::CloseRequested => true,
            WindowEvent::KeyboardInput { input } => input.state == ElementState::Pressed
                && input.virtual_keycode == Some(VirtualKeyCode::Escape),
            _ => false,
        }
    }

    /// The size that the event gives the window, if it gives one.
    pub open spec fn spec_new_size(self) -> Option<PhysicalSize> {
        match self {
            WindowEvent::Resized(size) => Some(size),
            WindowEvent::ScaleFactorChanged { new_inner_size } => Some(new_inner_size),
            _ => None,
        }
    }

    /// Whether the event asks the program to end.
    pub fn is_exit_request(&self) -> (exit: bool)
        ensures
            exit == self.spec_is_exit_request(),
    {
        match self {
            WindowEvent::CloseRequested => true,
            WindowEvent::KeyboardInput { input } => {
                match (input.state, input.virtual_keycode) {
                    (ElementState::Pressed, Some(VirtualKeyCode::Escape)) => true,
                    _ => false,
                }
            },
            _ => false,
        }
    }

    /// The size that the event gives the window, if it gives one.
    pub fn new_size(&self) -> (size: Option<PhysicalSize>)
        ensures
            size == self.spec_new_size(),
    {
        match self {
            WindowEvent::Resized(size) => Some(*size),
            WindowEvent::ScaleFactorChanged { new_inner_size } => Some(*new_inner_size),
            _ => None,
        }
    }
}

} // verus!
