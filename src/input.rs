//! Input events delivered to a widget tree.
use vstd::prelude::*;

verus! {

/// A button of the mouse.
#[derive(Debug, Clone, Copy, PartialEq, Eq, Structural)]
pub enum MouseButton {
    Left,
    Right,
    Middle,
    Other(u8),
}

/// Whether a button went down or up.
#[derive(Debug, Clone, Copy, PartialEq, Eq, Structural)]
pub enum ButtonState {
    Pressed,
    Released,
}

/// Something the mouse did.
#[derive(Debug, Clone, Copy, PartialEq, Eq, Structural)]
pub enum MouseEvent {
    CursorMoved { x: i32, y: i32 },
    CursorEntered,
    CursorLeft,
    Input { button: MouseButton, state: ButtonState },
    WheelScrolled { delta_x: i32, delta_y: i32 },
}

/// Something the keyboard did.
#[derive(Debug, Clone, Copy, PartialEq, Eq, Structural)]
pub enum KeyboardEvent {
    Input { key_code: u32, state: ButtonState },
    TextEntered { character: char },
}

/// An input occurrence, handed to the whole widget tree.
#[derive(Debug, Clone, Copy, PartialEq, Eq, Structural)]
pub enum Event {
    Mouse(MouseEvent),
    Keyboard(KeyboardEvent),
}

/// Whether the event is a press of the left mouse button.
pub open spec fn is_left_press(e: Event) -> bool {
    e == Event::Mouse(MouseEvent::Input { button: MouseButton::Left, state: ButtonState::Pressed })
}

impl Event {
    /// Returns whether this is a press of the left mouse button.
    pub fn is_left_press(&self) -> (r: bool)
        ensures
            r == is_left_press(*self),
    {
        match self {
            Event::Mouse(MouseEvent::Input { button: MouseButton::Left, state: ButtonState::Pressed }) => true,
            _ => false,
        }
    }
}

} // verus!
