//! Touch input types (`wl_touch`).
use vstd::prelude::*;
use crate::event::{Event, WindowEvent, wev};
use crate::geometry::Position;
use crate::pointer::{fixed_to_px, spec_fixed_to_px};
use crate::surface::SurfaceId;

verus! {

/// Identifier for a single touch contact. Recycled after the contact
/// ends.
#[derive(Debug, Clone, Copy, PartialEq, Eq, Hash, Structural)]
pub struct TouchId(pub i32);

/// Lifecycle phase of a single touch event.
#[derive(Debug, Clone, Copy, PartialEq, Eq, Hash, Structural)]
#[non_exhaustive]
pub enum TouchPhase {
    /// Finger / stylus first contacted the surface.
    Started,
    /// Contact moved while still down.
    Moved,
    /// Contact lifted normally.
    Ended,
    /// Compositor cancelled the gesture.
    Cancelled,
}

/// A single touch event.
#[derive(Debug, Clone, Copy, PartialEq, Eq, Structural)]
#[non_exhaustive]
pub struct TouchEvent {
    /// Which contact this event refers to.
    pub id: TouchId,
    /// Phase of this event in the contact's lifecycle.
    pub phase: TouchPhase,
    /// Surface-local position; the last known one for `Ended` /
    /// `Cancelled`.
    pub position: Position,
}


/// Whether the association list `s` has key `k`.
pub open spec fn has_key<V>(s: Seq<(i32, V)>, k: i32) -> bool {
    exists|i: int| 0 <= i < s.len() && #[trigger] s[i].0 == k
}

/// Position of key `k` (meaningful when [`has_key`] holds).
pub open spec fn key_index<V>(s: Seq<(i32, V)>, k: i32) -> int {
    choose|i: int| 0 <= i < s.len() && #[trigger] s[i].0 == k
}

/// No key occurs twice.
pub open spec fn keys_unique<V>(s: Seq<(i32, V)>) -> bool {
    forall|i: int, j: int| 0 <= i < s.len() && 0 <= j < s.len() && i != j ==> s[i].0 != s[j].0
}

/// Value under key `k`.
pub open spec fn assoc_get<V>(s: Seq<(i32, V)>, k: i32) -> Option<V> {
    if has_key(s, k) {
        Some(s[key_index(s, k)].1)
    } else {
        None
    }
}

/// `s` with `k` bound to `v` (in place when present, appended otherwise).
pub open spec fn assoc_insert<V>(s: Seq<(i32, V)>, k: i32, v: V) -> Seq<(i32, V)> {
    if has_key(s, k) {
        s.update(key_index(s, k), (k, v))
    } else {
        s.push((k, v))
    }
}

/// `s` without key `k`.
pub open spec fn assoc_remove<V>(s: Seq<(i32, V)>, k: i32) -> Seq<(i32, V)> {
    if has_key(s, k) {
        s.remove(key_index(s, k))
    } else {
        s
    }
}

/// Position of key `k`.
fn find_key<V: Copy>(s: &Vec<(i32, V)>, k: i32) -> (r: Option<usize>)
    requires
        keys_unique(s@),
    ensures
        r is None <==> !has_key(s@, k),
        r matches Some(i) ==> i < s@.len() && s@[i as int].0 == k && key_index(s@, k) == i,
{
    let n = s.len();
    let mut i: usize = 0;
    while i < n
        invariant
            n == s@.len(),
            i <= n,
            keys_unique(s@),
            forall|j: int| 0 <= j < i ==> s@[j].0 != k,
        decreases n - i,
    {
        if s[i].0 == k {
            let ghost c = key_index(s@, k);
            assert(s@[i as int].0 == k);
            assert(0 <= c < s@.len() && s@[c].0 == k);
            return Some(i);
        }
        i = i + 1;
    }
    None
}

/// Bind `k` to `v`.
fn assoc_set<V: Copy>(s: &mut Vec<(i32, V)>, k: i32, v: V)
    requires
        keys_unique(old(s)@),
    ensures
        keys_unique(final(s)@),
        final(s)@ == assoc_insert(old(s)@, k, v),
{
    match find_key(s, k) {
        Some(i) => {
            s.set(i, (k, v));
        },
        None => {
            s.push((k, v));
        },
    }
}

/// Remove `k`, returning its value.
fn assoc_take<V: Copy>(s: &mut Vec<(i32, V)>, k: i32) -> (r: Option<V>)
    requires
        keys_unique(old(s)@),
    ensures
        keys_unique(final(s)@),
        final(s)@ == assoc_remove(old(s)@, k),
        r == assoc_get(old(s)@, k),
{
    match find_key(s, k) {
        Some(i) => {
            let (_, v) = s.remove(i);
            Some(v)
        },
        None => None,
    }
}

/// Active touch contacts: the last known position of each contact id
/// and the surface each active contact went down on.
pub struct TouchState {
    /// Last known position per contact id.
    pub positions: Vec<(i32, Position)>,
    /// Surface per active contact id.
    pub surfaces: Vec<(i32, SurfaceId)>,
}

/// Position carried for wire coordinates `x`, `y`.
pub open spec fn spec_touch_position(x: i32, y: i32) -> Position {
    Position { x: spec_fixed_to_px(x as int) as i32, y: spec_fixed_to_px(y as int) as i32 }
}

/// The position an ending contact reports: its last known one, else the
/// origin.
pub open spec fn spec_last_position(positions: Seq<(i32, Position)>, id: i32) -> Position {
    match assoc_get(positions, id) {
        Some(p) => p,
        None => Position { x: 0, y: 0 },
    }
}

/// The `Cancelled` events of cancelling the active contacts `active`, in
/// order.
pub open spec fn spec_cancel_events(active: Seq<(i32, SurfaceId)>, positions: Seq<(i32, Position)>) -> Seq<Event<()>>
    decreases active.len(),
{
    if active.len() == 0 {
        Seq::empty()
    } else {
        spec_cancel_events(active.drop_last(), positions).push(wev(active.last().1, WindowEvent::Touch(TouchEvent {
            id: TouchId(active.last().0),
            phase: TouchPhase::Cancelled,
            position: spec_last_position(positions, active.last().0),
        })))
    }
}

impl TouchState {
    /// Keys are unique in both lists.
    pub open spec fn wf(&self) -> bool {
        keys_unique(self.positions@) && keys_unique(self.surfaces@)
    }

    /// No contact.
    pub fn new() -> (t: TouchState)
        ensures
            t.wf(),
            t.positions@.len() == 0,
            t.surfaces@.len() == 0,
    {
        TouchState { positions: Vec::new(), surfaces: Vec::new() }
    }

    /// `wl_touch.down` of contact `id` at wire coordinates `x`, `y` on
    /// `surface` (`None` when not one of ours, which is ignored): the
    /// contact becomes active on the surface and `Started` is emitted.
    pub fn down(&mut self, surface: Option<SurfaceId>, id: i32, x: i32, y: i32, out: &mut Vec<Event<()>>)
        requires
            old(self).wf(),
        ensures
            final(self).wf(),
            surface is None ==> *final(self) == *old(self) && final(out)@ == old(out)@,
            surface matches Some(sid) ==> {
                &&& final(self).positions@ == assoc_insert(old(self).positions@, id, spec_touch_position(x, y))
                &&& final(self).surfaces@ == assoc_insert(old(self).surfaces@, id, sid)
                &&& final(out)@ == old(out)@.push(wev(sid, WindowEvent::Touch(TouchEvent {
                    id: TouchId(id),
                    phase: TouchPhase::Started,
                    position: spec_touch_position(x, y),
                })))
            },
    {
        let sid = match surface {
            Some(s) => s,
            None => return,
        };
        let pos = Position { x: fixed_to_px(x), y: fixed_to_px(y) };
        assoc_set(&mut self.positions, id, pos);
        assoc_set(&mut self.surfaces, id, sid);
        out.push(Event::WindowEvent {
            surface_id: sid,
            event: WindowEvent::Touch(TouchEvent { id: TouchId(id), phase: TouchPhase::Started, position: pos }),
        });
    }

    /// `wl_touch.motion` of contact `id`: its position is recorded and,
    /// when the contact is active, `Moved` is emitted on its surface.
    pub fn motion(&mut self, id: i32, x: i32, y: i32, out: &mut Vec<Event<()>>)
        requires
            old(self).wf(),
        ensures
            final(self).wf(),
            final(self).positions@ == assoc_insert(old(self).positions@, id, spec_touch_position(x, y)),
            final(self).surfaces == old(self).surfaces,
            final(out)@ == old(out)@ + match assoc_get(old(self).surfaces@, id) {
                Some(sid) => seq![wev(sid, WindowEvent::Touch(TouchEvent {
                    id: TouchId(id),
                    phase: TouchPhase::Moved,
                    position: spec_touch_position(x, y),
                }))],
                None => Seq::<Event<()>>::empty(),
            },
    {
        let pos = Position { x: fixed_to_px(x), y: fixed_to_px(y) };
        assoc_set(&mut self.positions, id, pos);
        let found = match find_key(&self.surfaces, id) {
            Some(i) => Some(self.surfaces[i].1),
            None => None,
        };
        if let Some(sid) = found {
            out.push(Event::WindowEvent {
                surface_id: sid,
                event: WindowEvent::Touch(TouchEvent { id: TouchId(id), phase: TouchPhase::Moved, position: pos }),
            });
        }
        assert(out@ =~= old(out)@ + match assoc_get(old(self).surfaces@, id) {
            Some(sid) => seq![wev(sid, WindowEvent::Touch(TouchEvent {
                id: TouchId(id),
                phase: TouchPhase::Moved,
                position: spec_touch_position(x, y),
            }))],
            None => Seq::<Event<()>>::empty(),
        });
    }

    /// `wl_touch.up` of contact `id`: an active contact ends with `Ended`
    /// at its last known position, and is forgotten.
    pub fn up(&mut self, id: i32, out: &mut Vec<Event<()>>)
        requires
            old(self).wf(),
        ensures
            final(self).wf(),
            !has_key(old(self).surfaces@, id) ==> *final(self) == *old(self) && final(out)@ == old(out)@,
            has_key(old(self).surfaces@, id) ==> {
                &&& final(self).surfaces@ == assoc_remove(old(self).surfaces@, id)
                &&& final(self).positions@ == assoc_remove(old(self).positions@, id)
                &&& final(out)@ == old(out)@.push(wev(assoc_get(old(self).surfaces@, id)->0,
                    WindowEvent::Touch(TouchEvent {
                        id: TouchId(id),
                        phase: TouchPhase::Ended,
                        position: spec_last_position(old(self).positions@, id),
                    })))
            },
    {
        if find_key(&self.surfaces, id).is_none() {
            return;
        }
        let sid = match assoc_take(&mut self.surfaces, id) {
            Some(s) => s,
            None => return,
        };
        let pos = match assoc_take(&mut self.positions, id) {
            Some(p) => p,
            None => Position { x: 0, y: 0 },
        };
        out.push(Event::WindowEvent {
            surface_id: sid,
            event: WindowEvent::Touch(TouchEvent { id: TouchId(id), phase: TouchPhase::Ended, position: pos }),
        });
    }

    /// `wl_touch.cancel`: every active contact ends with `Cancelled` at
    /// its last known position, in the order the contacts went down, and
    /// is forgotten.
    pub fn cancel(&mut self, out: &mut Vec<Event<()>>)
        requires
            old(self).wf(),
        ensures
            final(self).wf(),
            final(self).surfaces@.len() == 0,
            forall|k: i32| has_key(old(self).surfaces@, k) ==> !has_key(final(self).positions@, k),
            forall|k: i32| has_key(old(self).positions@, k) && !has_key(old(self).surfaces@, k)
                ==> #[trigger] has_key(final(self).positions@, k),
            forall|k: i32| #[trigger] has_key(final(self).positions@, k) ==> has_key(old(self).positions@, k)
                && assoc_get(final(self).positions@, k) == assoc_get(old(self).positions@, k),
            final(out)@ == old(out)@ + spec_cancel_events(old(self).surfaces@, old(self).positions@),
    {
        let ghost active = self.surfaces@;
        let ghost pos0 = self.positions@;
        let ghost o0 = out@;
        let n = self.surfaces.len();
        let mut i: usize = 0;
        while i < n
            invariant
                n == active.len(),
                i <= n,
                keys_unique(active),
                keys_unique(self.positions@),
                keys_unique(self.surfaces@),
                self.surfaces@ == active,
                forall|j: int| 0 <= j < i ==> !has_key(self.positions@, #[trigger] active[j].0),
                forall|k: i32| #[trigger] has_key(self.positions@, k) ==> has_key(pos0, k)
                    && assoc_get(self.positions@, k) == assoc_get(pos0, k),
                forall|k: i32| has_key(pos0, k) && !has_key(active, k) ==> #[trigger] has_key(self.positions@, k),
                forall|j: int| i <= j < n ==> assoc_get(self.positions@, #[trigger] active[j].0) == assoc_get(pos0, active[j].0),
                out@ == o0 + spec_cancel_events(active.take(i as int), pos0),
            decreases n - i,
        {
            let (cid, sid) = self.surfaces[i];
            assert(active.take(i + 1).drop_last() =~= active.take(i as int));
            assert(active.take(i + 1).last() == active[i as int]);
            let ghost before = self.positions@;
            let p = assoc_take(&mut self.positions, cid);
            assert(p == assoc_get(pos0, cid));
            let pos = match p {
                Some(q) => q,
                None => Position { x: 0, y: 0 },
            };
            proof {
                TouchState::lemma_remove_keeps_others(before, cid);
            }
            out.push(Event::WindowEvent {
                surface_id: sid,
                event: WindowEvent::Touch(TouchEvent { id: TouchId(cid), phase: TouchPhase::Cancelled, position: pos }),
            });
            proof {
                assert forall|j: int| 0 <= j < i + 1 implies !has_key(self.positions@, #[trigger] active[j].0) by {
                    if j < i {
                        assert(!has_key(before, active[j].0));
                    }
                }
                assert forall|k: i32| has_key(pos0, k) && !has_key(active, k) implies #[trigger] has_key(self.positions@, k) by {
                    assert(active[i as int].0 == cid);
                    assert(k != cid);
                    assert(has_key(before, k));
                }
                assert forall|j: int| i + 1 <= j < n implies assoc_get(self.positions@, #[trigger] active[j].0)
                    == assoc_get(pos0, active[j].0) by {
                    assert(active[j].0 != cid);
                }
            }
            i = i + 1;
        }
        assert(active.take(n as int) =~= active);
        self.surfaces.clear();
    }

    /// Removing a key leaves the other bindings as they were.
    proof fn lemma_remove_keeps_others(s: Seq<(i32, Position)>, k: i32)
        requires
            keys_unique(s),
        ensures
            keys_unique(assoc_remove(s, k)),
            !has_key(assoc_remove(s, k), k),
            forall|k2: i32| k2 != k ==> #[trigger] has_key(assoc_remove(s, k), k2) == has_key(s, k2),
            forall|k2: i32| k2 != k ==> #[trigger] assoc_get(assoc_remove(s, k), k2) == assoc_get(s, k2),
    {
        if has_key(s, k) {
            let idx = key_index(s, k);
            let r = s.remove(idx);
            assert(r == assoc_remove(s, k));
            assert forall|j: int| 0 <= j < r.len() implies #[trigger] r[j] == (if j < idx { s[j] } else { s[j + 1] }) by {}
            assert forall|j: int| 0 <= j < r.len() implies #[trigger] r[j].0 != k by {
                if j < idx {
                    assert(s[j].0 != s[idx].0);
                } else {
                    assert(s[j + 1].0 != s[idx].0);
                }
            }
            assert forall|k2: i32| k2 != k implies #[trigger] has_key(r, k2) == has_key(s, k2) by {
                if has_key(s, k2) {
                    let i = key_index(s, k2);
                    assert(i != idx);
                    if i < idx {
                        assert(r[i].0 == k2);
                    } else {
                        assert(r[i - 1].0 == k2);
                    }
                }
                if has_key(r, k2) {
                    let j = key_index(r, k2);
                    if j < idx {
                        assert(s[j].0 == k2);
                    } else {
                        assert(s[j + 1].0 == k2);
                    }
                }
            }
            assert forall|k2: i32| k2 != k implies #[trigger] assoc_get(r, k2) == assoc_get(s, k2) by {
                if has_key(r, k2) {
                    let j = key_index(r, k2);
                    let i = key_index(s, k2);
                    if j < idx {
                        assert(s[j].0 == k2);
                        assert(j == i);
                    } else {
                        assert(s[j + 1].0 == k2);
                        assert(j + 1 == i);
                    }
                }
            }
        }
    }
}

} // verus!
