//! Mouse-drag tracking for the orbit camera.
//!
//! The controller decides, for each pair of window and device events, whether
//! the camera's eye should be moved around its orbit. The angle arithmetic
//! itself is done by the caller, which owns the floating-point state.

use vstd::prelude::*;

verus! {

/// A mouse button, as reported by the windowing layer.
#[derive(Clone, Copy, Debug, PartialEq, Eq, Structural)]
pub enum MouseButton {
    Left,
    Right,
    Middle,
    Other,
}

/// Whether a button went down or up.
#[derive(Clone, Copy, Debug, PartialEq, Eq, Structural)]
pub enum ElementState {
    Pressed,
    Released,
}

/// The part of a window event that the controller reads.
#[derive(Clone, Copy, Debug, PartialEq, Eq, Structural)]
pub enum WindowInput {
    MouseInput { button: MouseButton, state: ElementState },
    Other,
}

/// The part of a device event that the controller reads.
#[derive(Clone, Copy, Debug, PartialEq, Eq, Structural)]
pub enum DeviceInput {
    MouseMotion,
    Other,
}

/// How the camera moves.
#[derive(Clone, Copy, Debug, PartialEq, Eq, Structural)]
pub enum ControllerMode {
    /// The eye orbits the origin while the left button is held and the mouse moves.
    Orbit,
    /// The eye is stepped on every frame update; input is ignored.
    AutoRotate,
}

/// Input state of a camera controller.
#[derive(Clone, Copy, Debug, PartialEq, Eq, Structural)]
pub struct DragState {
    pub mode: ControllerMode,
    pub dragging: bool,
}

/// The drag flag after a window event: the left button sets it to whether it
/// is now pressed; every other event leaves it.
pub open spec fn next_dragging(dragging: bool, w: WindowInput) -> bool {
    match w {
        WindowInput::MouseInput { button: MouseButton::Left, state } => state == ElementState::Pressed,
        _ => dragging,
    }
}

/// One step of the controller on a window event and a device event, handled
/// in that order: the new state, and whether the eye is to be moved.
pub open spec fn step(s: DragState, w: WindowInput, d: DeviceInput) -> (DragState, bool) {
    match s.mode {
        ControllerMode::AutoRotate => (s, false),
        ControllerMode::Orbit => {
            let dragging = next_dragging(s.dragging, w);
            (DragState { mode: s.mode, dragging }, dragging && d == DeviceInput::MouseMotion)
        },
    }
}

/// Whether a window event reports the left button going down.
pub open spec fn is_left_press(w: WindowInput) -> bool {
    w == WindowInput::MouseInput { button: MouseButton::Left, state: ElementState::Pressed }
}

/// Whether a window event reports the left button going up.
pub open spec fn is_left_release(w: WindowInput) -> bool {
    w == WindowInput::MouseInput { button: MouseButton::Left, state: ElementState::Released }
}

/// The move decisions that a controller starting in `s` makes on a sequence
/// of (window event, device event) pairs.
pub open spec fn moves(s: DragState, events: Seq<(WindowInput, DeviceInput)>) -> Seq<bool>
    decreases events.len(),
{
    if events.len() == 0 {
        seq![]
    } else {
        let (next, moved) = step(s, events[0].0, events[0].1);
        seq![moved] + moves(next, events.drop_first())
    }
}

proof fn idle_stays_idle(s: DragState, events: Seq<(WindowInput, DeviceInput)>)
    requires
        s.mode == ControllerMode::AutoRotate || !s.dragging,
        forall|i: int| 0 <= i < events.len() ==> !is_left_press(#[trigger] events[i].0),
    ensures
        moves(s, events).len() == events.len(),
        forall|i: int| 0 <= i < events.len() ==> !moves(s, events)[i],
    decreases events.len(),
{
    if events.len() > 0 {
        let (next, moved) = step(s, events[0].0, events[0].1);
        assert(!is_left_press(events[0].0));
        let rest = events.drop_first();
        assert forall|i: int| 0 <= i < rest.len() implies !is_left_press(#[trigger] rest[i].0) by {
            assert(rest[i] == events[i + 1]);
        }
        idle_stays_idle(next, rest);
    }
}

/// Releasing the left button stops the orbit at once: from the event pair
/// that holds the release on, no motion moves the eye until the left button
/// is pressed again, however many motion events arrive.
pub proof fn release_stops_orbit(s: DragState, events: Seq<(WindowInput, DeviceInput)>)
    requires
        events.len() > 0,
        is_left_release(events[0].0),
        forall|i: int| 0 < i < events.len() ==> !is_left_press(#[trigger] events[i].0),
    ensures
        forall|i: int| 0 <= i < events.len() ==> !moves(s, events)[i],
{
    let (next, moved) = step(s, events[0].0, events[0].1);
    assert(!moved);
    assert(next.mode == ControllerMode::AutoRotate || !next.dragging);
    let rest = events.drop_first();
    assert forall|i: int| 0 <= i < rest.len() implies !is_left_press(#[trigger] rest[i].0) by {
        assert(rest[i] == events[i + 1]);
    }
    idle_stays_idle(next, rest);
    assert forall|i: int| 0 <= i < events.len() implies !moves(s, events)[i] by {
        if i > 0 {
            assert(moves(s, events)[i] == moves(next, rest)[i - 1]);
        }
    }
}

impl DragState {
    /// A controller in the given mode with no drag in progress.
    pub fn new(mode: ControllerMode) -> (r: DragState)
        ensures
            r.mode == mode,
            !r.dragging,
    {
        DragState { mode, dragging: false }
    }

    /// Handles one window event and one device event. Returns whether the
    /// eye is to be moved by the device event's motion.
    pub fn process_events(&mut self, w: &WindowInput, d: &DeviceInput) -> (moved: bool)
        ensures
            (*final(self), moved) == step(*old(self), *w, *d),
    {
        match self.mode {
            ControllerMode::AutoRotate => false,
            ControllerMode::Orbit => {
                match w {
                    WindowInput::MouseInput { button: MouseButton::Left, state } => {
                        self.dragging = match state {
                            ElementState::Pressed => true,
                            ElementState::Released => false,
                        };
                    },
                    _ => {},
                }
                match d {
                    DeviceInput::MouseMotion => self.dragging,
                    DeviceInput::Other => false,
                }
            },
        }
    }

    /// Whether a frame update advances the eye on its own.
    pub fn steps_each_frame(&self) -> (r: bool)
        ensures
            r == (self.mode == ControllerMode::AutoRotate),
    {
        match self.mode {
            ControllerMode::AutoRotate => true,
            ControllerMode::Orbit => false,
        }
    }
}

} // verus!
