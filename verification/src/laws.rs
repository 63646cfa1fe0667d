//! The driver's guarantees, stated and proved over the model.
//!
//! Each proof function here is a law of the driver: a property that
//! holds for every well-formed state and every sequence of updates,
//! proved from the spec transitions in [`crate::model`].

use vstd::prelude::*;

use crate::events::Event;
use crate::events::key_ev;
use crate::events::BTN_TOUCH;
use crate::messages::Touch as MsgTouch;
use crate::model::TrackpadView;
use crate::model::TRACKING_ID_LIMIT;
use crate::model::slot_used;
use crate::model::id_found;
use crate::model::id_index;
use crate::model::first_free_slot;
use crate::model::can_add;
use crate::model::tool_for_count;
use crate::model::apply_changed_one;
use crate::model::apply_released_one;
use crate::model::apply_changed;
use crate::model::apply_released;
use crate::model::apply_update;
use crate::model::lemma_first_free_slot_from;
use crate::model::lemma_changed_one_wf;
use crate::model::lemma_released_one_wf;
use crate::model::lemma_apply_changed_wf;
use crate::model::lemma_apply_released_wf;
use crate::model::lemma_apply_update_wf;

verus! {

/// Slot uniqueness: whatever touch update a well-formed driver applies,
/// no two entries of the resulting registry share a slot.
pub proof fn lemma_slot_uniqueness(v: TrackpadView, changed: Seq<MsgTouch>, released: Seq<i32>)
    requires
        v.wf(),
    ensures
        ({
            let ts = apply_update(v, changed, released).0.touches;
            forall|i: int, j: int|
                0 <= i < ts.len() && 0 <= j < ts.len() && i != j ==> ts[i].touch.slot
                    != ts[j].touch.slot
        }),
{
    lemma_apply_update_wf(v, changed, released);
}

/// Tool-count correctness: after any update the asserted tool key is
/// exactly the one for the touch count (none at zero, the quad tool at
/// four or more), and the contact flag says whether any touch is down.
pub proof fn lemma_tool_matches_count(v: TrackpadView, changed: Seq<MsgTouch>, released: Seq<i32>)
    requires
        v.wf(),
    ensures
        ({
            let fin = apply_update(v, changed, released).0;
            &&& fin.state.tool == tool_for_count(fin.touches.len())
            &&& fin.state.touch == (fin.touches.len() > 0)
        }),
{
    lemma_apply_update_wf(v, changed, released);
}

/// Idempotent release: releasing an id that is not registered emits no
/// events and changes no state, alone or as a whole update.
pub proof fn lemma_release_unknown_noop(v: TrackpadView, id: i32)
    requires
        !id_found(v.touches, id),
    ensures
        apply_released_one(v, id).0 == v,
        apply_released_one(v, id).1 == Seq::<Event>::empty(),
        apply_update(v, Seq::<MsgTouch>::empty(), seq![id]).0 == v,
        apply_update(v, Seq::<MsgTouch>::empty(), seq![id]).1 == Seq::<Event>::empty(),
        apply_update(v, Seq::<MsgTouch>::empty(), seq![id]).2 == Seq::<i32>::empty(),
{
    let ids = seq![id];
    assert(ids.drop_last() =~= Seq::<i32>::empty());
    assert(ids.last() == id);
    assert(apply_released(v, Seq::<i32>::empty()).0 == v);
    assert(apply_released(v, ids).0 == apply_released_one(v, id).0);
    assert(apply_released(v, ids).1 =~= apply_released_one(v, id).1);
    assert(apply_released(v, ids).1 =~= Seq::<Event>::empty());
    assert(apply_changed(v, Seq::<MsgTouch>::empty()).0 == v);
    assert(apply_update(v, Seq::<MsgTouch>::empty(), ids).0 == v);
    assert(apply_update(v, Seq::<MsgTouch>::empty(), ids).1 =~= Seq::<Event>::empty());
    assert(apply_update(v, Seq::<MsgTouch>::empty(), ids).2 =~= Seq::<i32>::empty());
}

/// The slot a registered touch occupies.
pub open spec fn slot_of(v: TrackpadView, id: i32) -> i32 {
    v.touches[id_index(v.touches, id)].touch.slot
}

/// Whether some touch other than `id` holds slot `k`.
pub open spec fn slot_held_by_other(v: TrackpadView, id: i32, k: i32) -> bool {
    exists|j: int| 0 <= j < v.touches.len() && v.touches[j].id != id && v.touches[j].touch.slot == k
}

/// Slot reuse: releasing the touch at slot `S` and then registering a
/// new touch hands out `S` again, provided every slot below `S` is held
/// by some other touch (the allocator always picks the smallest free
/// slot) and a tracking id is left to assign.
pub proof fn lemma_slot_reuse(v: TrackpadView, id: i32, t: MsgTouch)
    requires
        v.wf(),
        id_found(v.touches, id),
        v.state.next_tracking_id < TRACKING_ID_LIMIT,
        !id_found(v.touches, t.id) || t.id == id,
        forall|k: i32| 0 <= k < slot_of(v, id) ==> #[trigger] slot_held_by_other(v, id, k),
    ensures
        ({
            let after_release = apply_released_one(v, id).0;
            let after_add = apply_changed_one(after_release, t).0;
            &&& first_free_slot(after_release.touches) == slot_of(v, id)
            &&& after_add.touches.len() == after_release.touches.len() + 1
            &&& after_add.touches.last().id == t.id
            &&& after_add.touches.last().touch.slot == slot_of(v, id)
        }),
{
    let i = id_index(v.touches, id);
    assert(0 <= i < v.touches.len() && v.touches[i].id == id);
    let s = slot_of(v, id);
    lemma_released_one_wf(v, id);
    let v1 = apply_released_one(v, id).0;
    v.touches.remove_ensures(i);
    assert(v1.touches =~= v.touches.remove(i));

    // The new touch's id is not registered after the release.
    assert forall|j: int| 0 <= j < v1.touches.len() implies v1.touches[j].id != t.id by {
        if j < i {
            assert(v1.touches[j] == v.touches[j]);
        } else {
            assert(v1.touches[j] == v.touches[j + 1]);
        }
    }
    assert(!id_found(v1.touches, t.id));

    // Every slot below s is still held; s itself is now free.
    assert forall|k: i32| 0 <= k < s implies slot_used(v1.touches, k) by {
        assert(slot_held_by_other(v, id, k));
        let j = choose|j: int|
            0 <= j < v.touches.len() && v.touches[j].id != id && v.touches[j].touch.slot == k;
        assert(j != i);
        if j < i {
            assert(v1.touches[j] == v.touches[j]);
        } else {
            assert(v1.touches[j - 1] == v.touches[j]);
        }
    }
    assert forall|j: int| 0 <= j < v1.touches.len() implies v1.touches[j].touch.slot != s by {
        if j < i {
            assert(v1.touches[j] == v.touches[j]);
        } else {
            assert(v1.touches[j] == v.touches[j + 1]);
        }
    }
    assert(!slot_used(v1.touches, s));

    lemma_first_free_slot_from(v1.touches, 0);
    let f = first_free_slot(v1.touches);
    if f < s {
        assert(slot_used(v1.touches, f));
        assert(false);
    }
    if f > s {
        assert(slot_used(v1.touches, s));
        assert(false);
    }
    assert(f == s);
    assert(can_add(v1));
}

/// The tracking ids assigned to new contacts while a changed-touches
/// list is processed, in order of assignment.
pub open spec fn assigned_tracking_ids(v: TrackpadView, ts: Seq<MsgTouch>) -> Seq<i32>
    decreases ts.len(),
{
    if ts.len() == 0 {
        Seq::<i32>::empty()
    } else {
        let prev = assigned_tracking_ids(v, ts.drop_last());
        let v1 = apply_changed(v, ts.drop_last()).0;
        let t = ts.last();
        if !id_found(v1.touches, t.id) && can_add(v1) {
            prev.push((v1.state.next_tracking_id + 1) as i32)
        } else {
            prev
        }
    }
}

/// Tracking-id monotonicity: the tracking ids assigned while one
/// changed-touches list is processed are strictly increasing, and all
/// lie above the counter the update started with and at most the
/// counter it ends with.
pub proof fn lemma_tracking_ids_increase(v: TrackpadView, ts: Seq<MsgTouch>)
    requires
        v.wf(),
    ensures
        ({
            let assigned = assigned_tracking_ids(v, ts);
            &&& forall|a: int, b: int|
                0 <= a < b < assigned.len() ==> assigned[a] < assigned[b]
            &&& forall|a: int|
                0 <= a < assigned.len() ==> v.state.next_tracking_id < #[trigger] assigned[a]
                    && assigned[a] <= apply_changed(v, ts).0.state.next_tracking_id
        }),
    decreases ts.len(),
{
    if ts.len() > 0 {
        let dl = ts.drop_last();
        let t = ts.last();
        lemma_tracking_ids_increase(v, dl);
        lemma_apply_changed_wf(v, dl);
        let v1 = apply_changed(v, dl).0;
        lemma_changed_one_wf(v1, t);
        let prev = assigned_tracking_ids(v, dl);
        let assigned = assigned_tracking_ids(v, ts);
        let nxt = apply_changed(v, ts).0.state.next_tracking_id;
        assert(apply_changed(v, ts).0 == apply_changed_one(v1, t).0);
        if !id_found(v1.touches, t.id) && can_add(v1) {
            let tid = (v1.state.next_tracking_id + 1) as i32;
            assert(assigned == prev.push(tid));
            assert(apply_changed_one(v1, t).0.state.next_tracking_id == tid);
            assert forall|a: int|
                0 <= a < assigned.len() implies v.state.next_tracking_id < #[trigger] assigned[a]
                    && assigned[a] <= nxt by {
                if a < prev.len() {
                    assert(assigned[a] == prev[a]);
                } else {
                    assert(assigned[a] == tid);
                }
            }
            assert forall|a: int, b: int|
                0 <= a < b < assigned.len() implies assigned[a] < assigned[b] by {
                assert(assigned[a] == prev[a]);
                if b < prev.len() {
                    assert(assigned[b] == prev[b]);
                } else {
                    assert(assigned[b] == tid);
                    assert(prev[a] <= v1.state.next_tracking_id);
                }
            }
        } else {
            assert(assigned == prev);
            assert(v1.state.next_tracking_id <= nxt);
            assert forall|a: int|
                0 <= a < assigned.len() implies v.state.next_tracking_id < #[trigger] assigned[a]
                    && assigned[a] <= nxt by {
                assert(prev[a] <= v1.state.next_tracking_id);
            }
        }
    }
}

/// Tracking-id monotonicity across updates: every tracking id assigned
/// by a later update exceeds every id assigned by an earlier one.
pub proof fn lemma_tracking_ids_increase_across(
    v: TrackpadView,
    changed1: Seq<MsgTouch>,
    released1: Seq<i32>,
    changed2: Seq<MsgTouch>,
)
    requires
        v.wf(),
    ensures
        ({
            let first = assigned_tracking_ids(v, changed1);
            let later = assigned_tracking_ids(apply_update(v, changed1, released1).0, changed2);
            forall|a: int, b: int|
                0 <= a < first.len() && 0 <= b < later.len() ==> first[a] < later[b]
        }),
{
    lemma_tracking_ids_increase(v, changed1);
    lemma_apply_changed_wf(v, changed1);
    lemma_apply_released_wf(apply_changed(v, changed1).0, released1);
    lemma_tracking_ids_increase(apply_update(v, changed1, released1).0, changed2);
}

/// How often a given event occurs in a batch.
pub open spec fn count_ev(es: Seq<Event>, e: Event) -> nat
    decreases es.len(),
{
    if es.len() == 0 {
        0nat
    } else {
        count_ev(es.drop_last(), e) + (if es.last() == e {
            1nat
        } else {
            0nat
        })
    }
}

/// Occurrence counts add up over concatenation.
pub proof fn lemma_count_ev_add(a: Seq<Event>, b: Seq<Event>, e: Event)
    ensures
        count_ev(a + b, e) == count_ev(a, e) + count_ev(b, e),
    decreases b.len(),
{
    if b.len() == 0 {
        assert(a + b =~= a);
    } else {
        lemma_count_ev_add(a, b.drop_last(), e);
        assert((a + b).drop_last() =~= a + b.drop_last());
        assert((a + b).last() == b.last());
    }
}

/// One coordinate update never releases the touch-contact key, and
/// asserts it exactly when the first contact arrives on an empty
/// registry.
proof fn lemma_changed_one_contact(v: TrackpadView, t: MsgTouch)
    requires
        v.wf(),
    ensures
        count_ev(apply_changed_one(v, t).1, key_ev(BTN_TOUCH, 1)) == if v.touches.len() == 0
            && apply_changed_one(v, t).0.touches.len() > 0 {
            1nat
        } else {
            0nat
        },
        count_ev(apply_changed_one(v, t).1, key_ev(BTN_TOUCH, 0)) == 0nat,
{
    let down = key_ev(BTN_TOUCH, 1);
    let up = key_ev(BTN_TOUCH, 0);
    let es = apply_changed_one(v, t).1;
    if id_found(v.touches, t.id) {
        assert(count_ev(es, down) == 0nat) by {
            reveal_with_fuel(count_ev, 8);
        }
        assert(count_ev(es, up) == 0nat) by {
            reveal_with_fuel(count_ev, 8);
        }
    } else if can_add(v) {
        assert(count_ev(es, down) == if v.touches.len() == 0 {
            1nat
        } else {
            0nat
        }) by {
            reveal_with_fuel(count_ev, 12);
        }
        assert(count_ev(es, up) == 0nat) by {
            reveal_with_fuel(count_ev, 12);
        }
    } else {
    }
}

/// One release never asserts the touch-contact key, and releases it
/// exactly when the last contact leaves.
proof fn lemma_released_one_contact(v: TrackpadView, id: i32)
    requires
        v.wf(),
    ensures
        count_ev(apply_released_one(v, id).1, key_ev(BTN_TOUCH, 1)) == 0nat,
        count_ev(apply_released_one(v, id).1, key_ev(BTN_TOUCH, 0)) == if v.touches.len() > 0
            && apply_released_one(v, id).0.touches.len() == 0 {
            1nat
        } else {
            0nat
        },
{
    let down = key_ev(BTN_TOUCH, 1);
    let up = key_ev(BTN_TOUCH, 0);
    let es = apply_released_one(v, id).1;
    if id_found(v.touches, id) {
        let i = id_index(v.touches, id);
        assert(0 <= i < v.touches.len() && v.touches[i].id == id);
        assert(count_ev(es, down) == 0nat) by {
            reveal_with_fuel(count_ev, 8);
        }
        assert(count_ev(es, up) == if apply_released_one(v, id).0.touches.len() == 0 {
            1nat
        } else {
            0nat
        }) by {
            reveal_with_fuel(count_ev, 8);
        }
    }
}

/// Over a whole changed-touches list the touch-contact key is asserted
/// exactly once when the count rises from zero, and never released.
proof fn lemma_changed_contact(v: TrackpadView, ts: Seq<MsgTouch>)
    requires
        v.wf(),
    ensures
        count_ev(apply_changed(v, ts).1, key_ev(BTN_TOUCH, 1)) == if v.touches.len() == 0
            && apply_changed(v, ts).0.touches.len() > 0 {
            1nat
        } else {
            0nat
        },
        count_ev(apply_changed(v, ts).1, key_ev(BTN_TOUCH, 0)) == 0nat,
    decreases ts.len(),
{
    if ts.len() > 0 {
        lemma_changed_contact(v, ts.drop_last());
        lemma_apply_changed_wf(v, ts.drop_last());
        let v1 = apply_changed(v, ts.drop_last()).0;
        lemma_changed_one_contact(v1, ts.last());
        lemma_changed_one_wf(v1, ts.last());
        lemma_count_ev_add(
            apply_changed(v, ts.drop_last()).1,
            apply_changed_one(v1, ts.last()).1,
            key_ev(BTN_TOUCH, 1),
        );
        lemma_count_ev_add(
            apply_changed(v, ts.drop_last()).1,
            apply_changed_one(v1, ts.last()).1,
            key_ev(BTN_TOUCH, 0),
        );
    }
}

/// Over a whole released-ids list the touch-contact key is released
/// exactly once when the count falls to zero, and never asserted.
proof fn lemma_released_contact(v: TrackpadView, ids: Seq<i32>)
    requires
        v.wf(),
    ensures
        count_ev(apply_released(v, ids).1, key_ev(BTN_TOUCH, 1)) == 0nat,
        count_ev(apply_released(v, ids).1, key_ev(BTN_TOUCH, 0)) == if v.touches.len() > 0
            && apply_released(v, ids).0.touches.len() == 0 {
            1nat
        } else {
            0nat
        },
    decreases ids.len(),
{
    if ids.len() > 0 {
        lemma_released_contact(v, ids.drop_last());
        lemma_apply_released_wf(v, ids.drop_last());
        let v1 = apply_released(v, ids.drop_last()).0;
        lemma_released_one_contact(v1, ids.last());
        lemma_released_one_wf(v1, ids.last());
        lemma_count_ev_add(
            apply_released(v, ids.drop_last()).1,
            apply_released_one(v1, ids.last()).1,
            key_ev(BTN_TOUCH, 1),
        );
        lemma_count_ev_add(
            apply_released(v, ids.drop_last()).1,
            apply_released_one(v1, ids.last()).1,
            key_ev(BTN_TOUCH, 0),
        );
    }
}

/// Contact edge triggering: across one whole update the touch-contact
/// key is asserted exactly once when the touch count rises from zero,
/// released exactly once when it falls back to zero, and not emitted at
/// all while the count stays positive or stays zero.
pub proof fn lemma_contact_edges(v: TrackpadView, changed: Seq<MsgTouch>, released: Seq<i32>)
    requires
        v.wf(),
    ensures
        ({
            let mid = apply_changed(v, changed).0;
            let fin = apply_update(v, changed, released).0;
            let es = apply_update(v, changed, released).1;
            &&& count_ev(es, key_ev(BTN_TOUCH, 1)) == if v.touches.len() == 0
                && mid.touches.len() > 0 {
                1nat
            } else {
                0nat
            }
            &&& count_ev(es, key_ev(BTN_TOUCH, 0)) == if mid.touches.len() > 0
                && fin.touches.len() == 0 {
                1nat
            } else {
                0nat
            }
        }),
{
    lemma_changed_contact(v, changed);
    lemma_apply_changed_wf(v, changed);
    let mid = apply_changed(v, changed).0;
    lemma_released_contact(mid, released);
    lemma_count_ev_add(apply_changed(v, changed).1, apply_released(mid, released).1, key_ev(BTN_TOUCH, 1));
    lemma_count_ev_add(apply_changed(v, changed).1, apply_released(mid, released).1, key_ev(BTN_TOUCH, 0));
}

} // verus!
