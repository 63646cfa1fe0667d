//! The driver's state and its mathematical model.
//!
//! The exec driver keeps a registry of active touches and a small record
//! of the device state it has last written. The spec functions here say,
//! for every incoming update, what the next state is and exactly which
//! events are emitted; the exec code in [`crate::trackpad`] is proved to
//! match them.

use vstd::prelude::*;

use crate::events::Event;
use crate::events::key_ev;
use crate::events::abs_ev;
use crate::events::ABS_MT_SLOT;
use crate::events::ABS_MT_TRACKING_ID;
use crate::events::ABS_MT_POSITION_X;
use crate::events::ABS_MT_POSITION_Y;
use crate::events::ABS_X;
use crate::events::ABS_Y;
use crate::events::BTN_TOUCH;
use crate::events::BTN_TOOL_FINGER;
use crate::events::BTN_TOOL_DOUBLETAP;
use crate::events::BTN_TOOL_TRIPLETAP;
use crate::events::BTN_TOOL_QUADTAP;
use crate::events::TRACKING_ID_VACANT;

verus! {

/// Number of multitouch slots the device declares (slots are
/// `0 .. MAX_SLOTS`). A new touch is rejected when every slot is held.
pub const MAX_SLOTS: i32 = 6;

/// Largest tracking id the device declares. The counter saturates here:
/// once reached, new touches are rejected rather than wrapping.
pub const TRACKING_ID_LIMIT: i32 = 1000;

/// One registered touch: the slot it occupies and the tracking id
/// assigned to this physical contact.
#[derive(Clone, Copy, Debug, PartialEq, Eq, Structural)]
pub struct Touch {
    pub slot: i32,
    pub tracking_id: i32,
}

impl Touch {
    /// Builds a touch record from its slot and tracking id.
    pub fn new(slot: i32, tracking_id: i32) -> (t: Self)
        ensures
            t == (Touch { slot, tracking_id }),
    {
        Self { slot, tracking_id }
    }
}

/// One entry of the touch registry: a client id and the touch it names.
#[derive(Clone, Copy, Debug, PartialEq, Eq, Structural)]
pub struct Entry {
    pub id: i32,
    pub touch: Touch,
}

/// What the driver has last written to the device, plus the tracking-id
/// counter. The driver never assumes device state it has not written.
#[derive(Clone, Copy, Debug, PartialEq, Eq, Structural)]
pub struct State {
    /// Last slot value written (`-1` before any slot select).
    pub slot: i32,
    /// Currently asserted tool key, if any.
    pub tool: Option<u16>,
    /// Whether the touch-contact key is currently asserted.
    pub touch: bool,
    /// Last tracking-id value written.
    pub tracking_id: i32,
    /// Counter for the next tracking id to assign.
    pub next_tracking_id: i32,
}

/// The driver's whole abstract state: the registry and the device state.
pub ghost struct TrackpadView {
    pub touches: Seq<Entry>,
    pub state: State,
}

/// The state of a freshly created driver: empty registry, no slot
/// selected, no tool or contact asserted, counter at zero.
pub open spec fn initial_state() -> State {
    State { slot: -1i32, tool: None, touch: false, tracking_id: 0, next_tracking_id: 0 }
}

/// Whether some registry entry occupies the given slot.
pub open spec fn slot_used(ts: Seq<Entry>, s: i32) -> bool {
    exists|i: int| 0 <= i < ts.len() && ts[i].touch.slot == s
}

/// Whether some registry entry carries the given client id.
pub open spec fn id_found(ts: Seq<Entry>, id: i32) -> bool {
    exists|i: int| 0 <= i < ts.len() && ts[i].id == id
}

/// The index of the entry carrying the given client id (well defined
/// when ids are unique and the id is present).
pub open spec fn id_index(ts: Seq<Entry>, id: i32) -> int {
    choose|i: int| 0 <= i < ts.len() && ts[i].id == id
}

/// The smallest slot at or above `s` that no entry occupies, or
/// `MAX_SLOTS` when every slot from `s` up is held.
pub open spec fn first_free_slot_from(ts: Seq<Entry>, s: i32) -> i32
    decreases MAX_SLOTS - s,
    when s <= MAX_SLOTS
{
    if s >= MAX_SLOTS {
        MAX_SLOTS
    } else if !slot_used(ts, s) {
        s
    } else {
        first_free_slot_from(ts, (s + 1) as i32)
    }
}

/// The smallest non-negative slot no entry occupies (`MAX_SLOTS` when
/// the registry holds every slot).
pub open spec fn first_free_slot(ts: Seq<Entry>) -> i32 {
    first_free_slot_from(ts, 0)
}

/// Whether a new touch can be registered: a slot is free and the
/// tracking-id counter has not reached its declared range.
pub open spec fn can_add(v: TrackpadView) -> bool {
    first_free_slot(v.touches) < MAX_SLOTS && v.state.next_tracking_id < TRACKING_ID_LIMIT
}

/// The tool key asserted while `n` touches are down: none at zero, the
/// finger/double/triple tool at one/two/three, the quad tool above.
pub open spec fn tool_for_count(n: nat) -> Option<u16> {
    if n == 0 {
        None
    } else if n == 1 {
        Some(BTN_TOOL_FINGER)
    } else if n == 2 {
        Some(BTN_TOOL_DOUBLETAP)
    } else if n == 3 {
        Some(BTN_TOOL_TRIPLETAP)
    } else {
        Some(BTN_TOOL_QUADTAP)
    }
}

/// The events recomputing the tool classification emits, given the
/// post-change registry: release of the previously asserted tool key,
/// assertion of the tool key for the new count, and a touch-contact
/// edge where the count crossed zero.
pub open spec fn recompute_tool_events(v: TrackpadView) -> Seq<Event> {
    let release = match v.state.tool {
        Some(k) => seq![key_ev(k, 0)],
        None => Seq::<Event>::empty(),
    };
    let assertion = match tool_for_count(v.touches.len()) {
        Some(k) => seq![key_ev(k, 1)],
        None => Seq::<Event>::empty(),
    };
    let contact = if v.touches.len() > 0 && !v.state.touch {
        seq![key_ev(BTN_TOUCH, 1)]
    } else if v.touches.len() == 0 && v.state.touch {
        seq![key_ev(BTN_TOUCH, 0)]
    } else {
        Seq::<Event>::empty()
    };
    release + assertion + contact
}

/// The state after recomputing the tool classification: the tool key
/// matches the count and the contact flag says whether any touch is down.
pub open spec fn recompute_tool_state(v: TrackpadView) -> TrackpadView {
    TrackpadView {
        state: State {
            tool: tool_for_count(v.touches.len()),
            touch: v.touches.len() > 0,
            ..v.state
        },
        ..v
    }
}

/// Re-points the device's slot cursor: emits a slot-select event only
/// when the slot differs from the last one written.
pub open spec fn switch_slot(v: TrackpadView, slot: i32) -> (TrackpadView, Seq<Event>) {
    if slot == v.state.slot {
        (v, Seq::<Event>::empty())
    } else {
        (
            TrackpadView { state: State { slot, ..v.state }, ..v },
            seq![abs_ev(ABS_MT_SLOT, slot)],
        )
    }
}

/// Writes a tracking id: emits an event only when the value differs
/// from the last one written.
pub open spec fn switch_tracking(v: TrackpadView, tracking_id: i32) -> (TrackpadView, Seq<Event>) {
    if tracking_id == v.state.tracking_id {
        (v, Seq::<Event>::empty())
    } else {
        (
            TrackpadView { state: State { tracking_id, ..v.state }, ..v },
            seq![abs_ev(ABS_MT_TRACKING_ID, tracking_id)],
        )
    }
}

/// The coordinate events for one touch: the multitouch axes followed by
/// the single-touch compatibility axes.
pub open spec fn xy_events(x: i32, y: i32) -> Seq<Event> {
    seq![
        abs_ev(ABS_MT_POSITION_X, x),
        abs_ev(ABS_MT_POSITION_Y, y),
        abs_ev(ABS_X, x),
        abs_ev(ABS_Y, y),
    ]
}

/// One coordinate update. A registered id re-points the cursor to its
/// slot and tracking id and writes the coordinates. An unregistered id
/// is a new contact: it takes the smallest free slot and the next
/// tracking id, the tool classification is recomputed over the grown
/// registry, and the coordinates are written last. A new contact that
/// no slot or tracking id is left for is rejected: no state change and
/// no events.
pub open spec fn apply_changed_one(v: TrackpadView, t: crate::messages::Touch) -> (
    TrackpadView,
    Seq<Event>,
) {
    if id_found(v.touches, t.id) {
        let tr = v.touches[id_index(v.touches, t.id)].touch;
        let s1 = switch_slot(v, tr.slot);
        let s2 = switch_tracking(s1.0, tr.tracking_id);
        (s2.0, s1.1 + s2.1 + xy_events(t.x, t.y))
    } else if can_add(v) {
        let slot = first_free_slot(v.touches);
        let tid = (v.state.next_tracking_id + 1) as i32;
        let grown = TrackpadView {
            touches: v.touches.push(Entry { id: t.id, touch: Touch { slot, tracking_id: tid } }),
            state: State { next_tracking_id: tid, ..v.state },
        };
        let s1 = switch_slot(grown, slot);
        let s2 = switch_tracking(s1.0, tid);
        let e3 = recompute_tool_events(s2.0);
        (recompute_tool_state(s2.0), s1.1 + s2.1 + e3 + xy_events(t.x, t.y))
    } else {
        (v, Seq::<Event>::empty())
    }
}

/// One release. A registered id re-points the cursor to its slot,
/// writes the vacant-slot tracking id, leaves the registry, and the
/// tool classification is recomputed over the shrunk registry. An
/// unregistered id is a no-op: no state change and no events.
pub open spec fn apply_released_one(v: TrackpadView, id: i32) -> (TrackpadView, Seq<Event>) {
    if id_found(v.touches, id) {
        let i = id_index(v.touches, id);
        let tr = v.touches[i].touch;
        let s1 = switch_slot(v, tr.slot);
        let shrunk = TrackpadView {
            touches: s1.0.touches.remove(i),
            state: State { tracking_id: TRACKING_ID_VACANT, ..s1.0.state },
        };
        let e3 = recompute_tool_events(shrunk);
        (
            recompute_tool_state(shrunk),
            s1.1 + seq![abs_ev(ABS_MT_TRACKING_ID, TRACKING_ID_VACANT)] + e3,
        )
    } else {
        (v, Seq::<Event>::empty())
    }
}

/// Folds [`apply_changed_one`] over a list of coordinate updates, in
/// order; also collects the ids of rejected new contacts.
pub open spec fn apply_changed(v: TrackpadView, ts: Seq<crate::messages::Touch>) -> (
    TrackpadView,
    Seq<Event>,
    Seq<i32>,
)
    decreases ts.len(),
{
    if ts.len() == 0 {
        (v, Seq::<Event>::empty(), Seq::<i32>::empty())
    } else {
        let prev = apply_changed(v, ts.drop_last());
        let t = ts.last();
        let step = apply_changed_one(prev.0, t);
        let rejected = !id_found(prev.0.touches, t.id) && !can_add(prev.0);
        (
            step.0,
            prev.1 + step.1,
            if rejected {
                prev.2.push(t.id)
            } else {
                prev.2
            },
        )
    }
}

/// Folds [`apply_released_one`] over a list of released ids, in order.
pub open spec fn apply_released(v: TrackpadView, ids: Seq<i32>) -> (TrackpadView, Seq<Event>)
    decreases ids.len(),
{
    if ids.len() == 0 {
        (v, Seq::<Event>::empty())
    } else {
        let prev = apply_released(v, ids.drop_last());
        let step = apply_released_one(prev.0, ids.last());
        (step.0, prev.1 + step.1)
    }
}

/// One whole touch update: the coordinate changes first, then the
/// releases, all events in one ordered batch.
pub open spec fn apply_update(
    v: TrackpadView,
    changed: Seq<crate::messages::Touch>,
    released: Seq<i32>,
) -> (TrackpadView, Seq<Event>, Seq<i32>) {
    let c = apply_changed(v, changed);
    let r = apply_released(c.0, released);
    (r.0, c.1 + r.1, c.2)
}

impl TrackpadView {
    /// Well-formedness of the driver state: registry ids and slots are
    /// unique, slots lie in the declared range, tracking ids are
    /// positive and at most the counter, the counter and the written
    /// values lie in their declared ranges, and the tool key and the
    /// contact flag match the touch count.
    pub open spec fn wf(self) -> bool {
        &&& forall|i: int, j: int|
            0 <= i < self.touches.len() && 0 <= j < self.touches.len() && i != j
                ==> self.touches[i].id != self.touches[j].id
        &&& forall|i: int, j: int|
            0 <= i < self.touches.len() && 0 <= j < self.touches.len() && i != j
                ==> self.touches[i].touch.slot != self.touches[j].touch.slot
        &&& forall|i: int|
            0 <= i < self.touches.len() ==> 0 <= (#[trigger] self.touches[i]).touch.slot
                < MAX_SLOTS
        &&& forall|i: int|
            0 <= i < self.touches.len() ==> 0 < (#[trigger] self.touches[i]).touch.tracking_id
                <= self.state.next_tracking_id
        &&& 0 <= self.state.next_tracking_id <= TRACKING_ID_LIMIT
        &&& -1 <= self.state.slot < MAX_SLOTS
        &&& -1 <= self.state.tracking_id <= self.state.next_tracking_id
        &&& self.state.tool == tool_for_count(self.touches.len())
        &&& self.state.touch == (self.touches.len() > 0)
    }
}

/// The slot scan starting at `s` lands on a free slot (or on
/// `MAX_SLOTS` when none is left), and every slot it passed is held.
pub proof fn lemma_first_free_slot_from(ts: Seq<Entry>, s: i32)
    requires
        0 <= s <= MAX_SLOTS,
    ensures
        s <= first_free_slot_from(ts, s) <= MAX_SLOTS,
        first_free_slot_from(ts, s) < MAX_SLOTS ==> !slot_used(ts, first_free_slot_from(ts, s)),
        forall|k: i32| s <= k < first_free_slot_from(ts, s) ==> slot_used(ts, k),
    decreases MAX_SLOTS - s,
{
    if s >= MAX_SLOTS {
    } else if !slot_used(ts, s) {
    } else {
        lemma_first_free_slot_from(ts, (s + 1) as i32);
    }
}

/// One coordinate update keeps the driver well formed; the tracking-id
/// counter never shrinks and the registry never loses an entry.
pub proof fn lemma_changed_one_wf(v: TrackpadView, t: crate::messages::Touch)
    requires
        v.wf(),
    ensures
        apply_changed_one(v, t).0.wf(),
        v.state.next_tracking_id <= apply_changed_one(v, t).0.state.next_tracking_id,
        v.touches.len() <= apply_changed_one(v, t).0.touches.len(),
    {
    if id_found(v.touches, t.id) {
        let i = id_index(v.touches, t.id);
        assert(0 <= i < v.touches.len() && v.touches[i].id == t.id);
    } else if can_add(v) {
        lemma_first_free_slot_from(v.touches, 0);
        let slot = first_free_slot(v.touches);
        let tid = (v.state.next_tracking_id + 1) as i32;
        let grown = apply_changed_one(v, t).0.touches;
        assert(grown =~= v.touches.push(Entry { id: t.id, touch: Touch { slot, tracking_id: tid } }));
        assert forall|i: int, j: int|
            0 <= i < grown.len() && 0 <= j < grown.len() && i != j implies grown[i].id
            != grown[j].id by {
            if i < grown.len() - 1 && j < grown.len() - 1 {
            } else if i == grown.len() - 1 {
                assert(!(0 <= j < v.touches.len() && v.touches[j].id == t.id));
            } else {
                assert(!(0 <= i < v.touches.len() && v.touches[i].id == t.id));
            }
        }
        assert forall|i: int, j: int|
            0 <= i < grown.len() && 0 <= j < grown.len() && i != j implies grown[i].touch.slot
            != grown[j].touch.slot by {
            if i == grown.len() - 1 {
                assert(!slot_used(v.touches, grown[j].touch.slot) ==> grown[i].touch.slot != grown[j].touch.slot);
            } else if j == grown.len() - 1 {
                assert(!slot_used(v.touches, grown[i].touch.slot) ==> grown[i].touch.slot != grown[j].touch.slot);
            }
        }
    } else {
    }
}

/// One release keeps the driver well formed; the tracking-id counter is
/// untouched and the registry loses at most one entry.
pub proof fn lemma_released_one_wf(v: TrackpadView, id: i32)
    requires
        v.wf(),
    ensures
        apply_released_one(v, id).0.wf(),
        apply_released_one(v, id).0.state.next_tracking_id == v.state.next_tracking_id,
        apply_released_one(v, id).0.touches.len() <= v.touches.len(),
{
    if id_found(v.touches, id) {
        let i = id_index(v.touches, id);
        assert(0 <= i < v.touches.len() && v.touches[i].id == id);
        v.touches.remove_ensures(i);
        let shrunk = apply_released_one(v, id).0.touches;
        assert(shrunk =~= v.touches.remove(i));
    }
}

/// A whole changed-touches list keeps the driver well formed; the
/// tracking-id counter never shrinks and the registry never loses an
/// entry.
pub proof fn lemma_apply_changed_wf(v: TrackpadView, ts: Seq<crate::messages::Touch>)
    requires
        v.wf(),
    ensures
        apply_changed(v, ts).0.wf(),
        v.state.next_tracking_id <= apply_changed(v, ts).0.state.next_tracking_id,
        v.touches.len() <= apply_changed(v, ts).0.touches.len(),
    decreases ts.len(),
{
    if ts.len() > 0 {
        lemma_apply_changed_wf(v, ts.drop_last());
        lemma_changed_one_wf(apply_changed(v, ts.drop_last()).0, ts.last());
    }
}

/// A whole released-ids list keeps the driver well formed; the
/// tracking-id counter is untouched and the registry never grows.
pub proof fn lemma_apply_released_wf(v: TrackpadView, ids: Seq<i32>)
    requires
        v.wf(),
    ensures
        apply_released(v, ids).0.wf(),
        apply_released(v, ids).0.state.next_tracking_id == v.state.next_tracking_id,
        apply_released(v, ids).0.touches.len() <= v.touches.len(),
    decreases ids.len(),
{
    if ids.len() > 0 {
        lemma_apply_released_wf(v, ids.drop_last());
        lemma_released_one_wf(apply_released(v, ids.drop_last()).0, ids.last());
    }
}

/// A whole touch update keeps the driver well formed, and the
/// tracking-id counter never shrinks.
pub proof fn lemma_apply_update_wf(
    v: TrackpadView,
    changed: Seq<crate::messages::Touch>,
    released: Seq<i32>,
)
    requires
        v.wf(),
    ensures
        apply_update(v, changed, released).0.wf(),
        v.state.next_tracking_id <= apply_update(v, changed, released).0.state.next_tracking_id,
{
    lemma_apply_changed_wf(v, changed);
    lemma_apply_released_wf(apply_changed(v, changed).0, released);
}

} // verus!
