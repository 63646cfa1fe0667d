use mouseless::dispatch::handle_message;
use mouseless::dispatch::DispatchOutcome;
use mouseless::dispatch::Drivers;
use mouseless::events::Event;
use mouseless::events::EventKind;
use mouseless::events::ABS_MT_SLOT;
use mouseless::events::ABS_MT_TRACKING_ID;
use mouseless::events::BTN_LEFT;
use mouseless::messages::ButtonEventType;
use mouseless::messages::Channel;
use mouseless::messages::ClickMessage;
use mouseless::messages::InitMessage;
use mouseless::messages::MouseButton;
use mouseless::messages::Touch;
use mouseless::messages::TouchMessage;
use mouseless::messages::TrackpadMessage;

fn init_msg(x: i32, y: i32) -> Channel {
    Channel::Trackpad(TrackpadMessage::InitMessage(InitMessage { x, y }))
}

fn touch_msg(changed: Vec<Touch>, released: Vec<i32>) -> Channel {
    Channel::Trackpad(TrackpadMessage::TouchMessage(TouchMessage {
        changed_touches: changed,
        released_touches: released,
    }))
}

fn click_msg(button: MouseButton, event_type: ButtonEventType) -> Channel {
    Channel::Trackpad(TrackpadMessage::ClickMessage(ClickMessage { button, event_type }))
}

#[test]
fn update_before_init_emits_nothing() {
    let mut drivers = Drivers::new();
    let out = handle_message(
        touch_msg(vec![Touch { x: 5, y: 5, id: 1 }], vec![]),
        &mut drivers,
    );
    assert!(matches!(out, DispatchOutcome::NotInitialized));
    assert!(drivers.trackpad_driver.is_none());
}

#[test]
fn click_before_init_emits_nothing() {
    let mut drivers = Drivers::new();
    let out = handle_message(click_msg(MouseButton::Left, ButtonEventType::Down), &mut drivers);
    assert!(matches!(out, DispatchOutcome::NotInitialized));
    assert!(drivers.trackpad_driver.is_none());
}

#[test]
fn init_creates_the_driver_with_declared_capabilities() {
    let mut drivers = Drivers::new();
    let out = handle_message(init_msg(1920, 1080), &mut drivers);
    assert!(matches!(out, DispatchOutcome::Initialized));
    let driver = drivers.trackpad_driver.as_ref().unwrap();
    assert_eq!(driver.config.axes.len(), 6);
    assert_eq!(driver.config.keys.len(), 7);
    assert!(driver.config.pointer);
    let x_axis = driver.config.axes[0];
    assert_eq!(x_axis.min, 0);
    assert_eq!(x_axis.max, 1920);
    let slot_axis = driver.config.axes.iter().find(|a| a.axis == ABS_MT_SLOT).unwrap();
    assert_eq!(slot_axis.max, 5);
    let track_axis = driver.config.axes.iter().find(|a| a.axis == ABS_MT_TRACKING_ID).unwrap();
    assert_eq!(track_axis.max, 1000);
}

#[test]
fn second_init_is_ignored_with_warning() {
    let mut drivers = Drivers::new();
    handle_message(init_msg(1920, 1080), &mut drivers);
    handle_message(touch_msg(vec![Touch { x: 5, y: 5, id: 1 }], vec![]), &mut drivers);
    let out = handle_message(init_msg(640, 480), &mut drivers);
    assert!(matches!(out, DispatchOutcome::AlreadyInitialized));
    // The driver was not reapplied: its state and dimensions are kept.
    let driver = drivers.trackpad_driver.as_ref().unwrap();
    assert_eq!(driver.config.axes[0].max, 1920);
    assert_eq!(driver.touch_count(), 1);
}

#[test]
fn click_after_init_yields_the_key_event() {
    let mut drivers = Drivers::new();
    handle_message(init_msg(800, 600), &mut drivers);
    let out = handle_message(click_msg(MouseButton::Left, ButtonEventType::Down), &mut drivers);
    match out {
        DispatchOutcome::ClickEvent(e) => {
            assert_eq!(e, Event { kind: EventKind::Key, code: BTN_LEFT, value: 1 });
        }
        _ => panic!("expected a click event"),
    }
}

#[test]
fn touch_after_init_yields_a_batch() {
    let mut drivers = Drivers::new();
    handle_message(init_msg(800, 600), &mut drivers);
    let out = handle_message(touch_msg(vec![Touch { x: 5, y: 6, id: 1 }], vec![]), &mut drivers);
    match out {
        DispatchOutcome::TouchEvents(u) => {
            assert_eq!(u.events.len(), 8);
            assert!(u.rejected.is_empty());
        }
        _ => panic!("expected a touch batch"),
    }
    assert_eq!(drivers.trackpad_driver.as_ref().unwrap().touch_count(), 1);
}

#[test]
fn other_channels_are_unsupported() {
    let mut drivers = Drivers::new();
    let out = handle_message(Channel::Gamepad, &mut drivers);
    assert!(matches!(out, DispatchOutcome::UnsupportedChannel));
    let out = handle_message(Channel::Keyboard, &mut drivers);
    assert!(matches!(out, DispatchOutcome::UnsupportedChannel));
    assert!(drivers.trackpad_driver.is_none());
}
