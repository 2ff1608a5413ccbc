//! Input events as the chart reads them.

use vstd::prelude::*;

verus! {

/// A mouse button.
#[derive(Clone, Copy, Debug, PartialEq, Eq, Structural)]
pub enum MouseButton {
    Left,
    Right,
    Middle,
    Other,
}

/// A wheel movement. Components are in thousandths of a line or of a pixel.
#[derive(Clone, Copy, Debug, PartialEq, Eq, Structural)]
pub enum ScrollDelta {
    Lines { x: i32, y: i32 },
    Pixels { x: i32, y: i32 },
}

/// What the pointer did.
#[derive(Clone, Copy, Debug, PartialEq, Eq, Structural)]
pub enum MouseEvent {
    ButtonPressed(MouseButton),
    ButtonReleased(MouseButton),
    WheelScrolled { delta: ScrollDelta },
    /// Cursor movement and anything else the chart does not react to.
    Other,
}

/// An event delivered by the host.
#[derive(Clone, Copy, Debug, PartialEq, Eq, Structural)]
pub enum Event {
    Mouse(MouseEvent),
    /// Keyboard, touch and anything else the chart does not react to.
    Other,
}

/// Whether the chart used an event.
#[derive(Clone, Copy, Debug, PartialEq, Eq, Structural)]
pub enum Status {
    /// The event was not used; the host may pass it on.
    Ignored,
    /// The event was consumed.
    Captured,
}

/// Messages the chart hands to its host. It publishes none: the handler
/// returns `None` in that place for every event.
#[derive(Clone, Copy, Debug, PartialEq, Eq, Structural)]
pub enum Message {
    /// A message that asks for nothing.
    Noop,
}

} // verus!
