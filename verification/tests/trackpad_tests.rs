use mouseless::events::Event;
use mouseless::events::EventKind;
use mouseless::events::ABS_MT_POSITION_X;
use mouseless::events::ABS_MT_POSITION_Y;
use mouseless::events::ABS_MT_SLOT;
use mouseless::events::ABS_MT_TRACKING_ID;
use mouseless::events::ABS_X;
use mouseless::events::ABS_Y;
use mouseless::events::BTN_LEFT;
use mouseless::events::BTN_RIGHT;
use mouseless::events::BTN_TOOL_DOUBLETAP;
use mouseless::events::BTN_TOOL_FINGER;
use mouseless::events::BTN_TOOL_QUADTAP;
use mouseless::events::BTN_TOOL_TRIPLETAP;
use mouseless::events::BTN_TOUCH;
use mouseless::messages::ButtonEventType;
use mouseless::messages::MouseButton;
use mouseless::messages::Touch;
use mouseless::messages::TouchMessage;
use mouseless::trackpad::VirtualTrackpad;

fn key(code: u16, value: i32) -> Event {
    Event { kind: EventKind::Key, code, value }
}

fn abs(code: u16, value: i32) -> Event {
    Event { kind: EventKind::Absolute, code, value }
}

fn touch(id: i32, x: i32, y: i32) -> Touch {
    Touch { x, y, id }
}

fn update(changed: Vec<Touch>, released: Vec<i32>) -> TouchMessage {
    TouchMessage { changed_touches: changed, released_touches: released }
}

#[test]
fn touch_record_keeps_slot_and_tracking_id() {
    let t = mouseless::model::Touch::new(2, 5);
    assert_eq!(t.slot, 2);
    assert_eq!(t.tracking_id, 5);
}

#[test]
fn scenario_first_touch_emits_full_sequence() {
    let mut pad = VirtualTrackpad::new(1920, 1080);
    let out = pad.trackpad(update(vec![touch(1, 100, 200)], vec![]));
    assert_eq!(
        out.events,
        vec![
            abs(ABS_MT_SLOT, 0),
            abs(ABS_MT_TRACKING_ID, 1),
            key(BTN_TOOL_FINGER, 1),
            key(BTN_TOUCH, 1),
            abs(ABS_MT_POSITION_X, 100),
            abs(ABS_MT_POSITION_Y, 200),
            abs(ABS_X, 100),
            abs(ABS_Y, 200),
        ]
    );
    assert!(out.rejected.is_empty());
}

#[test]
fn scenario_release_keeps_other_touch_slot() {
    let mut pad = VirtualTrackpad::new(1920, 1080);
    pad.trackpad(update(vec![touch(1, 10, 10)], vec![]));
    pad.trackpad(update(vec![touch(2, 20, 20)], vec![]));
    assert_eq!(pad.slot_for(1), Some(0));
    assert_eq!(pad.slot_for(2), Some(1));

    let out = pad.trackpad(update(vec![], vec![1]));
    // Cursor re-pointed to slot 0, vacated, then tool double -> single.
    assert_eq!(
        out.events,
        vec![
            abs(ABS_MT_SLOT, 0),
            abs(ABS_MT_TRACKING_ID, -1),
            key(BTN_TOOL_DOUBLETAP, 0),
            key(BTN_TOOL_FINGER, 1),
        ]
    );
    // The remaining touch keeps its original slot.
    assert_eq!(pad.slot_for(1), None);
    assert_eq!(pad.slot_for(2), Some(1));
    // Contact stayed asserted: no BTN_TOUCH event in the batch.
    assert!(out.events.iter().all(|e| e.code != BTN_TOUCH));
}

#[test]
fn click_down_then_up() {
    let pad = VirtualTrackpad::new(800, 600);
    let down = pad.click(MouseButton::Left, ButtonEventType::Down);
    let up = pad.click(MouseButton::Left, ButtonEventType::Up);
    assert_eq!(down, key(BTN_LEFT, 1));
    assert_eq!(up, key(BTN_LEFT, 0));
}

#[test]
fn click_secondary_button() {
    let pad = VirtualTrackpad::new(800, 600);
    assert_eq!(pad.click(MouseButton::Right, ButtonEventType::Down), key(BTN_RIGHT, 1));
    assert_eq!(pad.click(MouseButton::Right, ButtonEventType::Up), key(BTN_RIGHT, 0));
}

#[test]
fn slots_are_unique_and_smallest_free() {
    let mut pad = VirtualTrackpad::new(1000, 1000);
    pad.trackpad(update(vec![touch(1, 1, 1), touch(2, 2, 2), touch(3, 3, 3)], vec![]));
    assert_eq!(pad.slot_for(1), Some(0));
    assert_eq!(pad.slot_for(2), Some(1));
    assert_eq!(pad.slot_for(3), Some(2));
}

#[test]
fn released_slot_is_reused() {
    let mut pad = VirtualTrackpad::new(1000, 1000);
    pad.trackpad(update(vec![touch(1, 1, 1), touch(2, 2, 2), touch(3, 3, 3)], vec![]));
    pad.trackpad(update(vec![], vec![2]));
    let out = pad.trackpad(update(vec![touch(4, 4, 4)], vec![]));
    assert_eq!(pad.slot_for(4), Some(1));
    // The cursor already sits on the vacated slot, so no redundant
    // slot-select event is emitted; the fresh tracking id comes first.
    assert_eq!(out.events[0], abs(ABS_MT_TRACKING_ID, 4));
    assert!(out.events.iter().all(|e| e.code != ABS_MT_SLOT));
}

#[test]
fn tracking_ids_strictly_increase() {
    let mut pad = VirtualTrackpad::new(1000, 1000);
    let a = pad.trackpad(update(vec![touch(1, 1, 1)], vec![]));
    let b = pad.trackpad(update(vec![touch(2, 2, 2)], vec![]));
    pad.trackpad(update(vec![], vec![1, 2]));
    let c = pad.trackpad(update(vec![touch(3, 3, 3)], vec![]));
    assert_eq!(a.events[1], abs(ABS_MT_TRACKING_ID, 1));
    assert_eq!(b.events[1], abs(ABS_MT_TRACKING_ID, 2));
    assert_eq!(c.events[1], abs(ABS_MT_TRACKING_ID, 3));
}

#[test]
fn releasing_unknown_id_is_a_noop() {
    let mut pad = VirtualTrackpad::new(1000, 1000);
    pad.trackpad(update(vec![touch(1, 1, 1)], vec![]));
    let out = pad.trackpad(update(vec![], vec![99]));
    assert!(out.events.is_empty());
    assert!(out.rejected.is_empty());
    assert_eq!(pad.touch_count(), 1);
    assert_eq!(pad.slot_for(1), Some(0));
}

#[test]
fn tool_key_follows_touch_count() {
    let mut pad = VirtualTrackpad::new(1000, 1000);
    let one = pad.trackpad(update(vec![touch(1, 1, 1)], vec![]));
    assert!(one.events.contains(&key(BTN_TOOL_FINGER, 1)));

    let two = pad.trackpad(update(vec![touch(2, 2, 2)], vec![]));
    assert!(two.events.contains(&key(BTN_TOOL_FINGER, 0)));
    assert!(two.events.contains(&key(BTN_TOOL_DOUBLETAP, 1)));

    let three = pad.trackpad(update(vec![touch(3, 3, 3)], vec![]));
    assert!(three.events.contains(&key(BTN_TOOL_DOUBLETAP, 0)));
    assert!(three.events.contains(&key(BTN_TOOL_TRIPLETAP, 1)));

    let four = pad.trackpad(update(vec![touch(4, 4, 4)], vec![]));
    assert!(four.events.contains(&key(BTN_TOOL_TRIPLETAP, 0)));
    assert!(four.events.contains(&key(BTN_TOOL_QUADTAP, 1)));

    // A fifth touch still maps to the quad tool.
    let five = pad.trackpad(update(vec![touch(5, 5, 5)], vec![]));
    assert!(five.events.contains(&key(BTN_TOOL_QUADTAP, 0)));
    assert!(five.events.contains(&key(BTN_TOOL_QUADTAP, 1)));
}

#[test]
fn contact_asserted_once_per_rise_and_fall() {
    let mut pad = VirtualTrackpad::new(1000, 1000);
    let grow = pad.trackpad(update(vec![touch(1, 1, 1), touch(2, 2, 2)], vec![]));
    let downs = grow.events.iter().filter(|e| **e == key(BTN_TOUCH, 1)).count();
    let ups = grow.events.iter().filter(|e| **e == key(BTN_TOUCH, 0)).count();
    assert_eq!(downs, 1);
    assert_eq!(ups, 0);

    let shrink = pad.trackpad(update(vec![], vec![1, 2]));
    let downs = shrink.events.iter().filter(|e| **e == key(BTN_TOUCH, 1)).count();
    let ups = shrink.events.iter().filter(|e| **e == key(BTN_TOUCH, 0)).count();
    assert_eq!(downs, 0);
    assert_eq!(ups, 1);
}

#[test]
fn moving_a_touch_reuses_slot_and_tracking_id() {
    let mut pad = VirtualTrackpad::new(1000, 1000);
    pad.trackpad(update(vec![touch(1, 1, 1)], vec![]));
    let out = pad.trackpad(update(vec![touch(1, 50, 60)], vec![]));
    // Cursor already on slot 0 with tracking id 1: only coordinates.
    assert_eq!(
        out.events,
        vec![
            abs(ABS_MT_POSITION_X, 50),
            abs(ABS_MT_POSITION_Y, 60),
            abs(ABS_X, 50),
            abs(ABS_Y, 60),
        ]
    );
    assert_eq!(pad.touch_count(), 1);
}

#[test]
fn seventh_touch_is_rejected() {
    let mut pad = VirtualTrackpad::new(1000, 1000);
    let changed: Vec<Touch> = (1..=6).map(|i| touch(i, i, i)).collect();
    let filled = pad.trackpad(update(changed, vec![]));
    assert!(filled.rejected.is_empty());
    assert_eq!(pad.touch_count(), 6);

    let out = pad.trackpad(update(vec![touch(7, 7, 7)], vec![]));
    assert_eq!(out.rejected, vec![7]);
    assert!(out.events.is_empty());
    assert_eq!(pad.touch_count(), 6);
    assert_eq!(pad.slot_for(7), None);
}

#[test]
fn empty_update_emits_nothing() {
    let mut pad = VirtualTrackpad::new(1000, 1000);
    let out = pad.trackpad(update(vec![], vec![]));
    assert!(out.events.is_empty());
    assert!(out.rejected.is_empty());
    assert_eq!(pad.touch_count(), 0);
}

#[test]
fn tracking_ids_saturate_at_declared_range() {
    let mut pad = VirtualTrackpad::new(1000, 1000);
    // Each tap consumes one tracking id; the counter never wraps.
    for i in 0..1000 {
        let out = pad.trackpad(update(vec![touch(i, 0, 0)], vec![i]));
        assert!(out.rejected.is_empty());
    }
    // The declared range is exhausted: a further touch is rejected.
    let out = pad.trackpad(update(vec![touch(2000, 0, 0)], vec![]));
    assert_eq!(out.rejected, vec![2000]);
    assert!(out.events.is_empty());
    assert_eq!(pad.touch_count(), 0);
}

#[test]
fn one_free_slot_takes_only_one_of_two_new_touches() {
    let mut pad = VirtualTrackpad::new(1000, 1000);
    let changed: Vec<Touch> = (1..=6).map(|i| touch(i, i, i)).collect();
    pad.trackpad(update(changed, vec![]));
    pad.trackpad(update(vec![], vec![3]));
    // One slot is free; of two new touches only the first fits.
    let out = pad.trackpad(update(vec![touch(7, 7, 7), touch(8, 8, 8)], vec![]));
    assert_eq!(out.rejected, vec![8]);
    assert_eq!(pad.slot_for(7), Some(2));
    assert_eq!(pad.slot_for(8), None);
}

#[test]
fn changes_are_applied_before_releases_in_one_update() {
    let mut pad = VirtualTrackpad::new(1000, 1000);
    let changed: Vec<Touch> = (1..=6).map(|i| touch(i, i, i)).collect();
    pad.trackpad(update(changed, vec![]));
    // The release comes after the changed touches, so the new touch
    // still finds every slot held.
    let out = pad.trackpad(update(vec![touch(7, 7, 7)], vec![3]));
    assert_eq!(out.rejected, vec![7]);
    assert_eq!(pad.slot_for(7), None);
    assert_eq!(pad.touch_count(), 5);
}
