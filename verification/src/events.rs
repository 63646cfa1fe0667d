//! Low-level input events and the key / axis codes the driver emits.
//!
//! An [`Event`] is the driver's output unit: a kind (key or absolute
//! axis), a numeric code and a value, mirroring the kernel input
//! protocol. The codes below are the standard Linux input event codes
//! for the keys and axes a multitouch trackpad uses.

use vstd::prelude::*;

verus! {

/// Primary (left) pointer button.
pub const BTN_LEFT: u16 = 272;
/// Secondary (right) pointer button.
pub const BTN_RIGHT: u16 = 273;
/// Tool key asserted while exactly one finger is down.
pub const BTN_TOOL_FINGER: u16 = 325;
/// Key asserted while at least one finger is in contact.
pub const BTN_TOUCH: u16 = 330;
/// Tool key asserted while exactly two fingers are down.
pub const BTN_TOOL_DOUBLETAP: u16 = 333;
/// Tool key asserted while exactly three fingers are down.
pub const BTN_TOOL_TRIPLETAP: u16 = 334;
/// Tool key asserted while four or more fingers are down.
pub const BTN_TOOL_QUADTAP: u16 = 335;

/// Single-touch absolute X axis.
pub const ABS_X: u16 = 0;
/// Single-touch absolute Y axis.
pub const ABS_Y: u16 = 1;
/// Multitouch slot-select axis.
pub const ABS_MT_SLOT: u16 = 47;
/// Multitouch per-slot absolute X axis.
pub const ABS_MT_POSITION_X: u16 = 53;
/// Multitouch per-slot absolute Y axis.
pub const ABS_MT_POSITION_Y: u16 = 54;
/// Multitouch per-slot tracking-id axis.
pub const ABS_MT_TRACKING_ID: u16 = 57;

/// Tracking-id value that marks the currently selected slot as vacant.
pub const TRACKING_ID_VACANT: i32 = -1;

/// The kind of a low-level input event.
#[derive(Clone, Copy, Debug, PartialEq, Eq, Structural)]
pub enum EventKind {
    /// A key press or release (`value` 1 or 0).
    Key,
    /// An absolute axis write.
    Absolute,
}

/// One low-level input event, as handed to the event sink.
#[derive(Clone, Copy, Debug, PartialEq, Eq, Structural)]
pub struct Event {
    /// Whether this is a key event or an absolute-axis event.
    pub kind: EventKind,
    /// The key or axis code.
    pub code: u16,
    /// The key state (0 or 1) or the axis value.
    pub value: i32,
}

/// The key event with the given code and state.
pub open spec fn key_ev(code: u16, value: i32) -> Event {
    Event { kind: EventKind::Key, code, value }
}

/// The absolute-axis event writing `value` to the given axis.
pub open spec fn abs_ev(code: u16, value: i32) -> Event {
    Event { kind: EventKind::Absolute, code, value }
}

/// Builds the key event with the given code and state.
pub fn make_key_ev(code: u16, value: i32) -> (e: Event)
    ensures
        e == key_ev(code, value),
{
    Event { kind: EventKind::Key, code, value }
}

/// Builds the absolute-axis event writing `value` to the given axis.
pub fn make_abs_ev(code: u16, value: i32) -> (e: Event)
    ensures
        e == abs_ev(code, value),
{
    Event { kind: EventKind::Absolute, code, value }
}

} // verus!
