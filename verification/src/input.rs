//! Input event types shared between the active node and passive nodes.
use vstd::prelude::*;
use crate::hid::{HidUsage, ModifierMask};
use crate::node::NodeId;

verus! {

/// Mouse button.
#[derive(Clone, Copy, Debug, PartialEq, Eq, Hash, Structural)]
pub enum Button {
    /// Left button (primary).
    Left,
    /// Right button (secondary).
    Right,
    /// Middle button.
    Middle,
    /// Back button (X1).
    Back,
    /// Forward button (X2).
    Forward,
    /// Vendor-defined / unknown button id.
    Other(u8),
}

/// A single input event flowing from the active node to a passive node.
///
/// Mouse moves are delta-based, so nodes with different resolutions need
/// not agree on a coordinate space.
#[derive(Clone, Copy, Debug, PartialEq, Eq)]
pub enum InputEvent {
    /// Pointer moved by `(dx, dy)` device pixels; `ts` is a millisecond
    /// timestamp from the source's clock.
    MouseMove { dx: i32, dy: i32, ts: u64 },
    /// Pointer warped to absolute coordinates inside the named screen.
    MouseAbs { x: i32, y: i32, screen_id: u8 },
    /// Mouse button state change (`pressed` false = release).
    MouseButton { btn: Button, pressed: bool },
    /// Scroll wheel; positive y scrolls down, positive x scrolls right.
    Scroll { dx: i32, dy: i32 },
    /// Keyboard event with a HID usage and the modifiers held at the time.
    Key { code: HidUsage, pressed: bool, modifiers: ModifierMask },
    /// Cursor entered this peer's screen; carries the source's modifiers
    /// so a held key does not leak into the next keystroke.
    Enter { from: NodeId, modifiers: ModifierMask },
    /// Cursor left this peer's screen.
    Leave { to: NodeId },
}

} // verus!
