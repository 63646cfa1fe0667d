//! Message dispatch: what to do with each decoded client message.
//!
//! The transport hands every decoded message to [`handle_message`],
//! which owns the one driver instance and says what the caller must do:
//! register the device, emit a batch, or log a warning. A touch or
//! click before initialization is ignored with a warning; a second init
//! is ignored with a warning; channels other than the trackpad are
//! reported as unsupported.

use vstd::prelude::*;

use crate::device::spec_axes;
use crate::device::spec_keys;
use crate::events::Event;
use crate::messages::Channel;
use crate::messages::TrackpadMessage;
use crate::model::Entry;
use crate::model::TrackpadView;
use crate::model::apply_update;
use crate::model::initial_state;
use crate::trackpad::UpdateOutcome;
use crate::trackpad::VirtualTrackpad;
use crate::trackpad::click_event;

verus! {

/// The drivers the dispatcher owns: the trackpad driver once an init
/// message created it.
pub struct Drivers {
    pub trackpad_driver: Option<VirtualTrackpad>,
}

impl Drivers {
    /// Well-formedness: the driver, once created, is well formed.
    pub open spec fn wf(self) -> bool {
        match self.trackpad_driver {
            Some(d) => d@.wf(),
            None => true,
        }
    }

    /// A dispatcher with no driver initialized yet.
    pub fn new() -> (d: Drivers)
        ensures
            d.trackpad_driver is None,
            d.wf(),
    {
        Drivers { trackpad_driver: None }
    }
}

/// What the caller must do after one message was handled.
pub enum DispatchOutcome {
    /// The driver was created: register the device with the declared
    /// capability set.
    Initialized,
    /// Emit this single key event as a batch of its own.
    ClickEvent(Event),
    /// Emit this event batch in one call; the rejected ids only warrant
    /// a warning.
    TouchEvents(UpdateOutcome),
    /// An init message arrived after initialization: warn, nothing
    /// reapplied.
    AlreadyInitialized,
    /// A touch or click message arrived before initialization: warn,
    /// nothing emitted.
    NotInitialized,
    /// The message belongs to a channel this driver does not implement.
    UnsupportedChannel,
}

/// Handles one decoded message: creates the driver on the first init,
/// applies touch updates and clicks to it, and reports misuse
/// (operate-before-init, double init, unsupported channel) without
/// touching any state.
pub fn handle_message(message: Channel, drivers: &mut Drivers) -> (out: DispatchOutcome)
    requires
        old(drivers).wf(),
    ensures
        final(drivers).wf(),
        (match message {
            Channel::Trackpad(TrackpadMessage::InitMessage(m)) => {
                if old(drivers).trackpad_driver is None {
                    &&& out is Initialized
                    &&& match final(drivers).trackpad_driver {
                        Some(d) => {
                            &&& d@ == (TrackpadView {
                                touches: Seq::<Entry>::empty(),
                                state: initial_state(),
                            })
                            &&& d.spec_config().axes@ == spec_axes(m.x, m.y)
                            &&& d.spec_config().keys@ == spec_keys()
                            &&& d.spec_config().pointer
                        },
                        None => false,
                    }
                } else {
                    &&& out is AlreadyInitialized
                    &&& *final(drivers) == *old(drivers)
                }
            },
            Channel::Trackpad(TrackpadMessage::ClickMessage(m)) => {
                match old(drivers).trackpad_driver {
                    Some(_) => {
                        &&& out == DispatchOutcome::ClickEvent(
                            click_event(m.button, m.event_type),
                        )
                        &&& *final(drivers) == *old(drivers)
                    },
                    None => {
                        &&& out is NotInitialized
                        &&& *final(drivers) == *old(drivers)
                    },
                }
            },
            Channel::Trackpad(TrackpadMessage::TouchMessage(m)) => {
                match old(drivers).trackpad_driver {
                    Some(d) => {
                        &&& match (out, final(drivers).trackpad_driver) {
                            (DispatchOutcome::TouchEvents(u), Some(d2)) => {
                                &&& d2@ == apply_update(
                                    d@,
                                    m.changed_touches@,
                                    m.released_touches@,
                                ).0
                                &&& u.events@ == apply_update(
                                    d@,
                                    m.changed_touches@,
                                    m.released_touches@,
                                ).1
                                &&& u.rejected@ == apply_update(
                                    d@,
                                    m.changed_touches@,
                                    m.released_touches@,
                                ).2
                                &&& d2.spec_config() == d.spec_config()
                            },
                            _ => false,
                        }
                    },
                    None => {
                        &&& out is NotInitialized
                        &&& *final(drivers) == *old(drivers)
                    },
                }
            },
            _ => {
                &&& out is UnsupportedChannel
                &&& *final(drivers) == *old(drivers)
            },
        }),
{
    match message {
        Channel::Trackpad(tm) => match tm {
            TrackpadMessage::InitMessage(m) => {
                if drivers.trackpad_driver.is_none() {
                    drivers.trackpad_driver = Some(VirtualTrackpad::new(m.x, m.y));
                    DispatchOutcome::Initialized
                } else {
                    DispatchOutcome::AlreadyInitialized
                }
            },
            TrackpadMessage::ClickMessage(m) => {
                match &drivers.trackpad_driver {
                    Some(d) => DispatchOutcome::ClickEvent(d.click(m.button, m.event_type)),
                    None => DispatchOutcome::NotInitialized,
                }
            },
            TrackpadMessage::TouchMessage(m) => {
                match &mut drivers.trackpad_driver {
                    Some(d) => DispatchOutcome::TouchEvents(d.trackpad(m)),
                    None => DispatchOutcome::NotInitialized,
                }
            },
        },
        _ => DispatchOutcome::UnsupportedChannel,
    }
}

} // verus!
