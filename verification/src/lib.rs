//! A virtual multitouch trackpad driver core.
//!
//! The driver owns per-touch slot and tracking-id state and translates
//! abstract touch updates into the ordered batches of low-level input
//! events that the kernel's multitouch protocol (type B) expects.
//! Device registration and event emission are left to the caller: every
//! function here is pure computation over plain values.

pub mod device;
pub mod dispatch;
pub mod events;
pub mod laws;
pub mod messages;
pub mod model;
pub mod trackpad;
