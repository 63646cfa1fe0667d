//! The capability set a virtual trackpad device is registered with.
//!
//! Given the client-declared surface dimensions this module computes
//! the declaration handed to the operating system: the absolute axes
//! with their ranges, the supported keys, and the pointer property.
//! Registering the device itself is the caller's job.

use vstd::prelude::*;

use crate::events::ABS_X;
use crate::events::ABS_Y;
use crate::events::ABS_MT_POSITION_X;
use crate::events::ABS_MT_POSITION_Y;
use crate::events::ABS_MT_SLOT;
use crate::events::ABS_MT_TRACKING_ID;
use crate::events::BTN_LEFT;
use crate::events::BTN_RIGHT;
use crate::events::BTN_TOOL_FINGER;
use crate::events::BTN_TOOL_DOUBLETAP;
use crate::events::BTN_TOOL_TRIPLETAP;
use crate::events::BTN_TOOL_QUADTAP;
use crate::events::BTN_TOUCH;
use crate::model::MAX_SLOTS;
use crate::model::TRACKING_ID_LIMIT;

verus! {

/// One absolute axis the device declares, with its range and
/// resolution.
#[derive(Clone, Copy, Debug, PartialEq, Eq, Structural)]
pub struct AbsAxis {
    pub axis: u16,
    pub min: i32,
    pub max: i32,
    pub resolution: i32,
}

/// The whole capability set: absolute axes, keys, and whether the
/// device carries the pointer property.
#[derive(Clone, Debug)]
pub struct DeviceConfig {
    pub axes: Vec<AbsAxis>,
    pub keys: Vec<u16>,
    pub pointer: bool,
}

/// The axes a trackpad of the given dimensions declares: single-touch
/// and multitouch X/Y over `[0, x]` and `[0, y]`, the slot axis over
/// the declared slot range, and the tracking-id axis over the declared
/// tracking-id range.
pub open spec fn spec_axes(x: i32, y: i32) -> Seq<AbsAxis> {
    seq![
        AbsAxis { axis: ABS_X, min: 0i32, max: x, resolution: 100i32 },
        AbsAxis { axis: ABS_Y, min: 0i32, max: y, resolution: 100i32 },
        AbsAxis { axis: ABS_MT_POSITION_X, min: 0i32, max: x, resolution: 100i32 },
        AbsAxis { axis: ABS_MT_POSITION_Y, min: 0i32, max: y, resolution: 100i32 },
        AbsAxis { axis: ABS_MT_SLOT, min: 0i32, max: (MAX_SLOTS - 1) as i32, resolution: 0i32 },
        AbsAxis { axis: ABS_MT_TRACKING_ID, min: 0i32, max: TRACKING_ID_LIMIT, resolution: 0i32 },
    ]
}

/// The keys a trackpad declares: both pointer buttons, the four tool
/// keys, and the touch-contact key.
pub open spec fn spec_keys() -> Seq<u16> {
    seq![
        BTN_LEFT,
        BTN_RIGHT,
        BTN_TOOL_FINGER,
        BTN_TOOL_DOUBLETAP,
        BTN_TOOL_TRIPLETAP,
        BTN_TOOL_QUADTAP,
        BTN_TOUCH,
    ]
}

/// Builds the capability set for a surface of the given dimensions.
pub fn device_config(x: i32, y: i32) -> (c: DeviceConfig)
    ensures
        c.axes@ == spec_axes(x, y),
        c.keys@ == spec_keys(),
        c.pointer,
{
    let mut axes: Vec<AbsAxis> = Vec::new();
    axes.push(AbsAxis { axis: ABS_X, min: 0, max: x, resolution: 100 });
    axes.push(AbsAxis { axis: ABS_Y, min: 0, max: y, resolution: 100 });
    axes.push(AbsAxis { axis: ABS_MT_POSITION_X, min: 0, max: x, resolution: 100 });
    axes.push(AbsAxis { axis: ABS_MT_POSITION_Y, min: 0, max: y, resolution: 100 });
    axes.push(AbsAxis { axis: ABS_MT_SLOT, min: 0, max: MAX_SLOTS - 1, resolution: 0 });
    axes.push(AbsAxis { axis: ABS_MT_TRACKING_ID, min: 0, max: TRACKING_ID_LIMIT, resolution: 0 });
    let mut keys: Vec<u16> = Vec::new();
    keys.push(BTN_LEFT);
    keys.push(BTN_RIGHT);
    keys.push(BTN_TOOL_FINGER);
    keys.push(BTN_TOOL_DOUBLETAP);
    keys.push(BTN_TOOL_TRIPLETAP);
    keys.push(BTN_TOOL_QUADTAP);
    keys.push(BTN_TOUCH);
    proof {
        assert(axes@ =~= spec_axes(x, y));
        assert(keys@ =~= spec_keys());
    }
    DeviceConfig { axes, keys, pointer: true }
}

} // verus!
