//! The virtual trackpad driver: the executable state machine.
//!
//! Every operation is pure computation: it mutates the driver's own
//! state and returns the ordered event batch to hand to the event sink.
//! Each method is proved to match the spec transitions in
//! [`crate::model`].

use vstd::prelude::*;

use crate::events::Event;
use crate::events::key_ev;
use crate::events::make_key_ev;
use crate::events::make_abs_ev;
use crate::events::ABS_MT_SLOT;
use crate::events::ABS_MT_TRACKING_ID;
use crate::events::ABS_MT_POSITION_X;
use crate::events::ABS_MT_POSITION_Y;
use crate::events::ABS_X;
use crate::events::ABS_Y;
use crate::events::BTN_LEFT;
use crate::events::BTN_RIGHT;
use crate::events::BTN_TOUCH;
use crate::events::BTN_TOOL_FINGER;
use crate::events::BTN_TOOL_DOUBLETAP;
use crate::events::BTN_TOOL_TRIPLETAP;
use crate::events::BTN_TOOL_QUADTAP;
use crate::events::TRACKING_ID_VACANT;
use crate::messages::TouchMessage;
use crate::messages::MouseButton;
use crate::messages::ButtonEventType;
use crate::model::Entry;
use crate::model::State;
use crate::model::Touch;
use crate::model::TrackpadView;
use crate::model::MAX_SLOTS;
use crate::model::TRACKING_ID_LIMIT;
use crate::model::initial_state;
use crate::model::slot_used;
use crate::model::id_found;
use crate::model::id_index;
use crate::model::first_free_slot;
use crate::model::first_free_slot_from;
use crate::model::can_add;
use crate::model::switch_slot;
use crate::model::switch_tracking;
use crate::model::xy_events;
use crate::model::recompute_tool_events;
use crate::model::recompute_tool_state;
use crate::model::apply_changed_one;
use crate::model::apply_released_one;
use crate::model::apply_changed;
use crate::model::apply_released;
use crate::model::apply_update;
use crate::model::lemma_changed_one_wf;
use crate::model::lemma_released_one_wf;
use crate::device::DeviceConfig;
use crate::device::device_config;
use crate::device::spec_axes;
use crate::device::spec_keys;

verus! {

/// The key event a click emits: the key for the button, value 1 for a
/// press and 0 for a release.
pub open spec fn click_event(button: MouseButton, event_type: ButtonEventType) -> Event {
    key_ev(
        if button is Left {
            BTN_LEFT
        } else {
            BTN_RIGHT
        },
        if event_type is Down {
            1
        } else {
            0
        },
    )
}

/// What one touch update produced: the ordered event batch to emit in
/// one call, and the ids of new contacts that were rejected because no
/// slot or tracking id was left for them.
pub struct UpdateOutcome {
    pub events: Vec<Event>,
    pub rejected: Vec<i32>,
}

/// The virtual trackpad driver. It owns the touch registry and the
/// record of what it last wrote to the device; its methods compute the
/// event batches that keep the device in sync.
pub struct VirtualTrackpad {
    /// The capability set this device was declared with.
    pub config: DeviceConfig,
    touches: Vec<Entry>,
    state: State,
}

impl View for VirtualTrackpad {
    type V = TrackpadView;

    closed spec fn view(&self) -> TrackpadView {
        TrackpadView { touches: self.touches@, state: self.state }
    }
}

impl VirtualTrackpad {
    /// The capability set this device was declared with.
    pub closed spec fn spec_config(&self) -> DeviceConfig {
        self.config
    }
}

impl VirtualTrackpad {
    /// Creates the driver for a surface of the given dimensions: an
    /// empty registry, nothing asserted, and the capability set the
    /// device is to be registered with.
    pub fn new(x: i32, y: i32) -> (r: Self)
        ensures
            r@ == (TrackpadView { touches: Seq::<Entry>::empty(), state: initial_state() }),
            r@.wf(),
            r.spec_config().axes@ == spec_axes(x, y),
            r.spec_config().keys@ == spec_keys(),
            r.spec_config().pointer,
    {
        let r = VirtualTrackpad {
            config: device_config(x, y),
            touches: Vec::new(),
            state: State {
                slot: -1,
                tool: None,
                touch: false,
                tracking_id: 0,
                next_tracking_id: 0,
            },
        };
        proof {
            assert(r@ =~= TrackpadView { touches: Seq::<Entry>::empty(), state: initial_state() });
        }
        r
    }

    /// Computes the single key event for a pointer-button press or
    /// release. Independent of touch state; the caller emits it as a
    /// batch of its own.
    pub fn click(&self, button: MouseButton, event_type: ButtonEventType) -> (e: Event)
        ensures
            e == click_event(button, event_type),
    {
        let code: u16 = if matches!(button, MouseButton::Left) {
            BTN_LEFT
        } else {
            BTN_RIGHT
        };
        let value: i32 = if matches!(event_type, ButtonEventType::Down) {
            1
        } else {
            0
        };
        make_key_ev(code, value)
    }

    /// How many touches are currently registered.
    pub fn touch_count(&self) -> (n: usize)
        ensures
            n == self@.touches.len(),
    {
        self.touches.len()
    }

    /// The slot the touch with the given client id occupies, if it is
    /// registered.
    pub fn slot_for(&self, id: i32) -> (r: Option<i32>)
        requires
            self@.wf(),
        ensures
            r is Some <==> id_found(self@.touches, id),
            match r {
                Some(s) => id_found(self@.touches, id) && s == self@.touches[id_index(
                    self@.touches,
                    id,
                )].touch.slot,
                None => true,
            },
    {
        let n = self.touches.len();
        let mut i: usize = 0;
        while i < n
            invariant
                self@.wf(),
                i <= n,
                n == self.touches@.len(),
                forall|j: int| 0 <= j < i ==> self.touches@[j].id != id,
            decreases n - i,
        {
            if self.touches[i].id == id {
                proof {
                    let k = id_index(self@.touches, id);
                    assert(0 <= k < self@.touches.len() && self@.touches[k].id == id);
                    assert(k == i as int);
                }
                return Some(self.touches[i].touch.slot);
            }
            i += 1;
        }
        None
    }

    /// Whether some registered touch occupies the given slot.
    fn slot_taken(&self, s: i32) -> (b: bool)
        ensures
            b == slot_used(self@.touches, s),
    {
        let n = self.touches.len();
        let mut i: usize = 0;
        while i < n
            invariant
                i <= n,
                n == self.touches@.len(),
                forall|j: int| 0 <= j < i ==> self.touches@[j].touch.slot != s,
            decreases n - i,
        {
            if self.touches[i].touch.slot == s {
                return true;
            }
            i += 1;
        }
        false
    }

    /// The smallest slot no registered touch occupies, or `MAX_SLOTS`
    /// when every slot is held.
    fn get_first_free_slot(&self) -> (slot: i32)
        ensures
            slot == first_free_slot(self@.touches),
    {
        let mut slot: i32 = 0;
        while slot < MAX_SLOTS
            invariant
                0 <= slot <= MAX_SLOTS,
                first_free_slot(self@.touches) == first_free_slot_from(self@.touches, slot),
            decreases MAX_SLOTS - slot,
        {
            if !self.slot_taken(slot) {
                return slot;
            }
            slot += 1;
        }
        MAX_SLOTS
    }

    /// The index of the registry entry carrying the given client id.
    fn find_index(&self, id: i32) -> (r: Option<usize>)
        ensures
            r is Some <==> id_found(self@.touches, id),
            match r {
                Some(j) => j < self@.touches.len() && self@.touches[j as int].id == id,
                None => true,
            },
    {
        let n = self.touches.len();
        let mut i: usize = 0;
        while i < n
            invariant
                i <= n,
                n == self.touches@.len(),
                forall|j: int| 0 <= j < i ==> self.touches@[j].id != id,
            decreases n - i,
        {
            if self.touches[i].id == id {
                return Some(i);
            }
            i += 1;
        }
        None
    }

    /// Re-points the device's slot cursor, emitting a slot-select event
    /// only when the slot differs from the last one written.
    fn switch_slots(&mut self, slot: i32) -> (es: Vec<Event>)
        ensures
            final(self)@ == switch_slot(old(self)@, slot).0,
            es@ == switch_slot(old(self)@, slot).1,
            final(self).spec_config() == old(self).spec_config(),
    {
        let mut es: Vec<Event> = Vec::new();
        if slot != self.state.slot {
            self.state.slot = slot;
            es.push(make_abs_ev(ABS_MT_SLOT, slot));
        }
        proof {
            assert(es@ =~= switch_slot(old(self)@, slot).1);
            assert(self@ =~= switch_slot(old(self)@, slot).0);
        }
        es
    }

    /// Writes a tracking id, emitting an event only when the value
    /// differs from the last one written.
    fn switch_tracking_id(&mut self, tracking_id: i32) -> (es: Vec<Event>)
        ensures
            final(self)@ == switch_tracking(old(self)@, tracking_id).0,
            es@ == switch_tracking(old(self)@, tracking_id).1,
            final(self).spec_config() == old(self).spec_config(),
    {
        let mut es: Vec<Event> = Vec::new();
        if tracking_id != self.state.tracking_id {
            self.state.tracking_id = tracking_id;
            es.push(make_abs_ev(ABS_MT_TRACKING_ID, tracking_id));
        }
        proof {
            assert(es@ =~= switch_tracking(old(self)@, tracking_id).1);
            assert(self@ =~= switch_tracking(old(self)@, tracking_id).0);
        }
        es
    }

    /// Recomputes the tool classification and the touch-contact flag
    /// after the touch count changed, returning the key events that
    /// bring the device up to date.
    fn touch_number_events(&mut self) -> (es: Vec<Event>)
        ensures
            final(self)@ == recompute_tool_state(old(self)@),
            es@ == recompute_tool_events(old(self)@),
            final(self).spec_config() == old(self).spec_config(),
    {
        let mut es: Vec<Event> = Vec::new();
        if let Some(tool) = self.state.tool {
            es.push(make_key_ev(tool, 0));
        }
        let n = self.touches.len();
        let new_tool: Option<u16> = if n == 0 {
            None
        } else if n == 1 {
            Some(BTN_TOOL_FINGER)
        } else if n == 2 {
            Some(BTN_TOOL_DOUBLETAP)
        } else if n == 3 {
            Some(BTN_TOOL_TRIPLETAP)
        } else {
            Some(BTN_TOOL_QUADTAP)
        };
        if let Some(k) = new_tool {
            es.push(make_key_ev(k, 1));
        }
        if n > 0 && !self.state.touch {
            es.push(make_key_ev(BTN_TOUCH, 1));
        } else if n == 0 && self.state.touch {
            es.push(make_key_ev(BTN_TOUCH, 0));
        }
        self.state.tool = new_tool;
        self.state.touch = n > 0;
        proof {
            assert(es@ =~= recompute_tool_events(old(self)@));
            assert(self@ =~= recompute_tool_state(old(self)@));
        }
        es
    }

    /// The coordinate events for one touch: multitouch axes first, then
    /// the single-touch compatibility axes.
    fn xy_events(&self, x: i32, y: i32) -> (es: Vec<Event>)
        ensures
            es@ == xy_events(x, y),
    {
        let mut es: Vec<Event> = Vec::new();
        es.push(make_abs_ev(ABS_MT_POSITION_X, x));
        es.push(make_abs_ev(ABS_MT_POSITION_Y, y));
        es.push(make_abs_ev(ABS_X, x));
        es.push(make_abs_ev(ABS_Y, y));
        proof {
            assert(es@ =~= xy_events(x, y));
        }
        es
    }

    /// Applies one touch update: coordinate changes first, then
    /// releases. Returns the whole ordered event batch, to be emitted to
    /// the device in a single call, together with the ids of any new
    /// contacts that were rejected for want of a free slot or tracking
    /// id. Releasing an id that is not registered is a no-op.
    pub fn trackpad(&mut self, touches: TouchMessage) -> (out: UpdateOutcome)
        requires
            old(self)@.wf(),
        ensures
            final(self)@.wf(),
            final(self)@ == apply_update(
                old(self)@,
                touches.changed_touches@,
                touches.released_touches@,
            ).0,
            out.events@ == apply_update(
                old(self)@,
                touches.changed_touches@,
                touches.released_touches@,
            ).1,
            out.rejected@ == apply_update(
                old(self)@,
                touches.changed_touches@,
                touches.released_touches@,
            ).2,
            final(self).spec_config() == old(self).spec_config(),
    {
        let ghost v0 = self@;
        let ghost cs = touches.changed_touches@;
        let ghost rs = touches.released_touches@;

        let mut events: Vec<Event> = Vec::new();
        let mut rejected: Vec<i32> = Vec::new();

        let nc = touches.changed_touches.len();
        let mut i: usize = 0;
        while i < nc
            invariant
                i <= nc,
                nc == cs.len(),
                cs == touches.changed_touches@,
                rs == touches.released_touches@,
                v0.wf(),
                self@.wf(),
                self@ == apply_changed(v0, cs.subrange(0, i as int)).0,
                events@ == apply_changed(v0, cs.subrange(0, i as int)).1,
                rejected@ == apply_changed(v0, cs.subrange(0, i as int)).2,
                self.spec_config() == old(self).spec_config(),
            decreases nc - i,
        {
            let ghost prefix = cs.subrange(0, i as int);
            let ghost pre = self@;
            let t = touches.changed_touches[i];

            if let Some(j) = self.find_index(t.id) {
                proof {
                    assert(id_found(pre.touches, t.id));
                    let k = id_index(pre.touches, t.id);
                    assert(0 <= k < pre.touches.len() && pre.touches[k].id == t.id);
                    assert(k == j as int);
                }
                let tr = self.touches[j].touch;
                let mut e1 = self.switch_slots(tr.slot);
                events.append(&mut e1);
                let mut e2 = self.switch_tracking_id(tr.tracking_id);
                events.append(&mut e2);
                let mut e3 = self.xy_events(t.x, t.y);
                events.append(&mut e3);
                proof {
                    assert(self@ == apply_changed_one(pre, t).0);
                    assert(events@ =~= apply_changed(v0, prefix).1 + apply_changed_one(pre, t).1);
                }
            } else {
                let s = self.get_first_free_slot();
                if s < MAX_SLOTS && self.state.next_tracking_id < TRACKING_ID_LIMIT {
                    proof {
                        assert(can_add(pre));
                    }
                    let tid = self.state.next_tracking_id + 1;
                    self.state.next_tracking_id = tid;
                    self.touches.push(Entry { id: t.id, touch: Touch { slot: s, tracking_id: tid } });
                    proof {
                        assert(self@ =~= (TrackpadView {
                            touches: pre.touches.push(
                                Entry { id: t.id, touch: Touch { slot: s, tracking_id: tid } },
                            ),
                            state: State { next_tracking_id: tid, ..pre.state },
                        }));
                    }
                    let mut e1 = self.switch_slots(s);
                    events.append(&mut e1);
                    let mut e2 = self.switch_tracking_id(tid);
                    events.append(&mut e2);
                    let mut e3 = self.touch_number_events();
                    events.append(&mut e3);
                    let mut e4 = self.xy_events(t.x, t.y);
                    events.append(&mut e4);
                    proof {
                        assert(self@ == apply_changed_one(pre, t).0);
                        assert(events@ =~= apply_changed(v0, prefix).1 + apply_changed_one(pre, t).1);
                    }
                } else {
                    rejected.push(t.id);
                    proof {
                        assert(!can_add(pre));
                        assert(self@ == apply_changed_one(pre, t).0);
                        assert(events@ =~= apply_changed(v0, prefix).1 + apply_changed_one(pre, t).1);
                    }
                }
            }

            proof {
                lemma_changed_one_wf(pre, t);
                let prefix1 = cs.subrange(0, i as int + 1);
                assert(prefix1.drop_last() =~= prefix);
                assert(prefix1.last() == cs[i as int]);
                assert(self@ == apply_changed(v0, prefix1).0);
                assert(events@ =~= apply_changed(v0, prefix1).1);
                assert(rejected@ =~= apply_changed(v0, prefix1).2);
            }
            i += 1;
        }

        proof {
            assert(cs.subrange(0, nc as int) =~= cs);
        }

        let ghost vmid = self@;
        let nr = touches.released_touches.len();
        let mut r: usize = 0;
        while r < nr
            invariant
                r <= nr,
                nr == rs.len(),
                rs == touches.released_touches@,
                vmid.wf(),
                self@.wf(),
                vmid == apply_changed(v0, cs).0,
                events@ == apply_changed(v0, cs).1 + apply_released(vmid, rs.subrange(0, r as int)).1,
                self@ == apply_released(vmid, rs.subrange(0, r as int)).0,
                rejected@ == apply_changed(v0, cs).2,
                self.spec_config() == old(self).spec_config(),
            decreases nr - r,
        {
            let ghost prefix = rs.subrange(0, r as int);
            let ghost pre = self@;
            let id = touches.released_touches[r];

            if let Some(j) = self.find_index(id) {
                proof {
                    assert(id_found(pre.touches, id));
                    let k = id_index(pre.touches, id);
                    assert(0 <= k < pre.touches.len() && pre.touches[k].id == id);
                    assert(k == j as int);
                }
                let tr = self.touches[j].touch;
                let mut e1 = self.switch_slots(tr.slot);
                events.append(&mut e1);
                self.state.tracking_id = TRACKING_ID_VACANT;
                events.push(make_abs_ev(ABS_MT_TRACKING_ID, TRACKING_ID_VACANT));
                self.touches.remove(j);
                let mut e3 = self.touch_number_events();
                events.append(&mut e3);
                proof {
                    assert(self@ == apply_released_one(pre, id).0);
                    assert(events@ =~= apply_changed(v0, cs).1 + apply_released(vmid, prefix).1
                        + apply_released_one(pre, id).1);
                }
            } else {
                proof {
                    assert(self@ == apply_released_one(pre, id).0);
                    assert(events@ =~= apply_changed(v0, cs).1 + apply_released(vmid, prefix).1
                        + apply_released_one(pre, id).1);
                }
            }

            proof {
                lemma_released_one_wf(pre, id);
                let prefix1 = rs.subrange(0, r as int + 1);
                assert(prefix1.drop_last() =~= prefix);
                assert(prefix1.last() == rs[r as int]);
                assert(self@ == apply_released(vmid, prefix1).0);
                assert(events@ =~= apply_changed(v0, cs).1 + apply_released(vmid, prefix1).1);
            }
            r += 1;
        }

        proof {
            assert(rs.subrange(0, nr as int) =~= rs);
            assert(events@ =~= apply_update(v0, cs, rs).1);
        }

        UpdateOutcome { events, rejected }
    }
}

} // verus!
