//! Discrete input handling of the free-look camera controller.
//!
//! The controller keeps six movement amounts, each either fully on or off, and a latch
//! that says whether a drag (left mouse button held) is in progress. The scalar parts of
//! the controller (rotation and scroll deltas, speed, sensitivity) are floating point and
//! are kept by the host next to this state.
use vstd::prelude::*;

verus! {

/// A physical key, as far as the controller and the event loop tell keys apart.
#[derive(Clone, Copy, Debug, PartialEq, Eq, Structural)]
pub enum KeyCode {
    KeyW,
    KeyA,
    KeyS,
    KeyD,
    ArrowUp,
    ArrowDown,
    ArrowLeft,
    ArrowRight,
    Space,
    ShiftLeft,
    Escape,
    Other,
}

/// One of the six directions in which the camera can be moved.
#[derive(Clone, Copy, Debug, PartialEq, Eq, Structural)]
pub enum MoveDirection {
    Forward,
    Backward,
    Left,
    Right,
    Up,
    Down,
}

#[derive(Clone, Copy, Debug, PartialEq, Eq, Structural)]
pub enum MouseButton {
    Left,
    Right,
    Middle,
    Other,
}

/// A window event, reduced to what the controller and the frame loop look at.
/// Scroll amounts and pointer motion are floating point and stay with the host:
/// `MouseWheel` only records that a wheel event happened.
#[derive(Clone, Copy, Debug, PartialEq, Eq, Structural)]
pub enum WindowEvent {
    Key { key: KeyCode, pressed: bool },
    MouseInput { button: MouseButton, pressed: bool },
    MouseWheel,
    Resized { width: u32, height: u32 },
    CloseRequested,
    RedrawRequested,
    Other,
}

/// What the event loop does with an event that the controller did not consume.
#[derive(Clone, Copy, Debug, PartialEq, Eq, Structural)]
pub enum LoopAction {
    Nothing,
    Exit,
    Resize { width: u32, height: u32 },
    Redraw,
}

/// The direction that a key drives: W and the up arrow move forward, S and the down arrow
/// backward, A and the left arrow left, D and the right arrow right, space up and the left
/// shift key down.
pub open spec fn direction_of(key: KeyCode) -> Option<MoveDirection> {
    match key {
        KeyCode::KeyW | KeyCode::ArrowUp => Some(MoveDirection::Forward),
        KeyCode::KeyS | KeyCode::ArrowDown => Some(MoveDirection::Backward),
        KeyCode::KeyA | KeyCode::ArrowLeft => Some(MoveDirection::Left),
        KeyCode::KeyD | KeyCode::ArrowRight => Some(MoveDirection::Right),
        KeyCode::Space => Some(MoveDirection::Up),
        KeyCode::ShiftLeft => Some(MoveDirection::Down),
        _ => None,
    }
}

pub fn key_direction(key: KeyCode) -> (r: Option<MoveDirection>)
    ensures
        r == direction_of(key),
{
    match key {
        KeyCode::KeyW | KeyCode::ArrowUp => Some(MoveDirection::Forward),
        KeyCode::KeyS | KeyCode::ArrowDown => Some(MoveDirection::Backward),
        KeyCode::KeyA | KeyCode::ArrowLeft => Some(MoveDirection::Left),
        KeyCode::KeyD | KeyCode::ArrowRight => Some(MoveDirection::Right),
        KeyCode::Space => Some(MoveDirection::Up),
        KeyCode::ShiftLeft => Some(MoveDirection::Down),
        _ => None,
    }
}

/// The discrete state of the camera controller: which movement keys are held (an amount
/// of one when held, zero when not) and whether a drag is in progress.
#[derive(Clone, Copy, Debug, PartialEq, Eq, Structural)]
pub struct ControllerInput {
    pub forward: bool,
    pub backward: bool,
    pub left: bool,
    pub right: bool,
    pub up: bool,
    pub down: bool,
    pub mouse_pressed: bool,
}

impl ControllerInput {
    pub open spec fn held(self, d: MoveDirection) -> bool {
        match d {
            MoveDirection::Forward => self.forward,
            MoveDirection::Backward => self.backward,
            MoveDirection::Left => self.left,
            MoveDirection::Right => self.right,
            MoveDirection::Up => self.up,
            MoveDirection::Down => self.down,
        }
    }

    /// This state with direction `d` set to `on` and nothing else changed.
    pub open spec fn with_held(self, d: MoveDirection, on: bool) -> Self {
        match d {
            MoveDirection::Forward => ControllerInput { forward: on, ..self },
            MoveDirection::Backward => ControllerInput { backward: on, ..self },
            MoveDirection::Left => ControllerInput { left: on, ..self },
            MoveDirection::Right => ControllerInput { right: on, ..self },
            MoveDirection::Up => ControllerInput { up: on, ..self },
            MoveDirection::Down => ControllerInput { down: on, ..self },
        }
    }

    /// Whether the controller consumes `event`, and the state that it leaves.
    pub open spec fn step(self, event: WindowEvent) -> (bool, Self) {
        match event {
            WindowEvent::Key { key, pressed } => match direction_of(key) {
                Some(d) => (true, self.with_held(d, pressed)),
                None => (false, self),
            },
            WindowEvent::MouseInput { button, pressed } => if button == MouseButton::Left {
                (true, ControllerInput { mouse_pressed: pressed, ..self })
            } else {
                (false, self)
            },
            WindowEvent::MouseWheel => (true, self),
            _ => (false, self),
        }
    }

    /// No key held and no drag in progress.
    pub fn new() -> (r: Self)
        ensures
            r == (ControllerInput {
                forward: false,
                backward: false,
                left: false,
                right: false,
                up: false,
                down: false,
                mouse_pressed: false,
            }),
            forall|d: MoveDirection| !r.held(d),
    {
        ControllerInput {
            forward: false,
            backward: false,
            left: false,
            right: false,
            up: false,
            down: false,
            mouse_pressed: false,
        }
    }

    pub fn is_held(&self, d: MoveDirection) -> (r: bool)
        ensures
            r == self.held(d),
    {
        match d {
            MoveDirection::Forward => self.forward,
            MoveDirection::Backward => self.backward,
            MoveDirection::Left => self.left,
            MoveDirection::Right => self.right,
            MoveDirection::Up => self.up,
            MoveDirection::Down => self.down,
        }
    }

    /// Whether relative pointer motion should turn the camera: only while dragging.
    pub fn accepts_pointer_delta(&self) -> (r: bool)
        ensures
            r == self.mouse_pressed,
    {
        self.mouse_pressed
    }

    /// Feeds one window event to the controller. A movement key sets its direction to held
    /// on press and to released on release; the left mouse button sets the drag latch; a
    /// wheel event is consumed (its amount is recorded by the host). Returns whether the
    /// event was consumed; an event that is not consumed leaves the state as it was.
    pub fn process_events(&mut self, event: &WindowEvent) -> (consumed: bool)
        ensures
            (consumed, *final(self)) == old(self).step(*event),
    {
        match *event {
            WindowEvent::Key { key, pressed } => match key_direction(key) {
                Some(MoveDirection::Forward) => {
                    self.forward = pressed;
                    true
                },
                Some(MoveDirection::Backward) => {
                    self.backward = pressed;
                    true
                },
                Some(MoveDirection::Left) => {
                    self.left = pressed;
                    true
                },
                Some(MoveDirection::Right) => {
                    self.right = pressed;
                    true
                },
                Some(MoveDirection::Up) => {
                    self.up = pressed;
                    true
                },
                Some(MoveDirection::Down) => {
                    self.down = pressed;
                    true
                },
                None => false,
            },
            WindowEvent::MouseInput { button: MouseButton::Left, pressed } => {
                self.mouse_pressed = pressed;
                true
            },
            WindowEvent::MouseWheel => true,
            _ => false,
        }
    }

    /// Dispatches one window event: the controller sees it first; an event it does not
    /// consume goes to the event loop (see `unconsumed_action`).
    pub fn handle_event(&mut self, event: &WindowEvent) -> (r: LoopAction)
        ensures
            *final(self) == old(self).step(*event).1,
            r == if old(self).step(*event).0 {
                LoopAction::Nothing
            } else {
                loop_action_of(*event)
            },
    {
        if self.process_events(event) {
            LoopAction::Nothing
        } else {
            unconsumed_action(event)
        }
    }
}

/// A close request, or a press of Escape, ends the loop; a resize is passed on with its
/// size; a redraw request runs a frame; anything else is ignored.
pub open spec fn loop_action_of(event: WindowEvent) -> LoopAction {
    match event {
        WindowEvent::CloseRequested => LoopAction::Exit,
        WindowEvent::Key { key: KeyCode::Escape, pressed: true } => LoopAction::Exit,
        WindowEvent::Resized { width, height } => LoopAction::Resize { width, height },
        WindowEvent::RedrawRequested => LoopAction::Redraw,
        _ => LoopAction::Nothing,
    }
}

pub fn unconsumed_action(event: &WindowEvent) -> (r: LoopAction)
    ensures
        r == loop_action_of(*event),
{
    match *event {
        WindowEvent::CloseRequested => LoopAction::Exit,
        WindowEvent::Key { key: KeyCode::Escape, pressed: true } => LoopAction::Exit,
        WindowEvent::Resized { width, height } => LoopAction::Resize { width, height },
        WindowEvent::RedrawRequested => LoopAction::Redraw,
        _ => LoopAction::Nothing,
    }
}

} // verus!
