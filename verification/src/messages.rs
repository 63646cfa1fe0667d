//! The messages a remote client sends to drive the virtual trackpad.
//!
//! The transport decodes the wire format and hands these plain values to
//! the driver; nothing here depends on how the bytes arrived.

use vstd::prelude::*;

verus! {

/// The top-level channel a message belongs to. Only the trackpad channel
/// is implemented; the others are reported as unsupported.
#[derive(Clone, Debug)]
pub enum Channel {
    Trackpad(TrackpadMessage),
    Gamepad,
    Keyboard,
}

/// A message on the trackpad channel.
#[derive(Clone, Debug)]
pub enum TrackpadMessage {
    TouchMessage(TouchMessage),
    ClickMessage(ClickMessage),
    InitMessage(InitMessage),
}

/// One touch update: coordinate changes for some fingers and a list of
/// fingers that left the surface.
#[derive(Clone, Debug)]
pub struct TouchMessage {
    pub changed_touches: Vec<Touch>,
    pub released_touches: Vec<i32>,
}

/// The client's view of one finger: its client-assigned identifier and
/// its current coordinates on the surface.
#[derive(Clone, Copy, Debug, PartialEq, Eq, Structural)]
pub struct Touch {
    pub x: i32,
    pub y: i32,
    pub id: i32,
}

/// A pointer-button press or release.
#[derive(Clone, Copy, Debug, PartialEq, Eq, Structural)]
pub struct ClickMessage {
    pub button: MouseButton,
    pub event_type: ButtonEventType,
}

/// The surface dimensions the client declares; must arrive before any
/// touch or click message.
#[derive(Clone, Copy, Debug, PartialEq, Eq, Structural)]
pub struct InitMessage {
    pub x: i32,
    pub y: i32,
}

/// Which pointer button a click message is about.
#[derive(Clone, Copy, Debug, PartialEq, Eq, Structural)]
pub enum MouseButton {
    Left,
    Right,
}

/// Whether a click message presses or releases the button.
#[derive(Clone, Copy, Debug, PartialEq, Eq, Structural)]
pub enum ButtonEventType {
    Down,
    Up,
}

} // verus!
