//! Properties that span several transitions of the client state machine.
use vstd::prelude::*;
use crate::event::{Event, WindowEvent, wev};
use crate::geometry::Size;
use crate::ime::{TextInputState, spec_ime_done_events};
use crate::keyboard::{spec_repeat_count};
use crate::output::OutputId;
use crate::pointer::{PointerState, spec_axis_reset, spec_frame_events};
use crate::state::{spec_pump_timeout, spec_sat_sub, spec_min_u64, PUMP_CAP_NS};
use crate::surface::SurfaceId;
use crate::cursor::{CursorIcon, spec_cursor_wire};
use crate::surfaces::{
    SurfaceState, has_id, ids_unique, spec_after_redraw_request, spec_flag_redraw, update_id, lemma_max_touched_bounds, max_touched_scale, output_scale_of, spec_ack_events, spec_acked,
    spec_layer_configured, spec_physical_dim, spec_redraw_events, spec_redraw_served, spec_resolved_scale,
    spec_toplevel_configure_events, spec_toplevel_configured, spec_touch_remove, spec_touch_update,
};

verus! {

/// Every acked configure ends with `RedrawRequested` for the surface, and
/// emits at most three events.
pub proof fn law_ack_ends_with_redraw(s: SurfaceState)
    ensures
        spec_ack_events(s).len() >= 1,
        spec_ack_events(s).len() <= 3,
        spec_ack_events(s).last() == wev(s.id, WindowEvent::RedrawRequested),
{
}

/// A configure that changes neither size nor scale since the last one
/// only asks for a redraw: acking twice in a row reports `Resized` and
/// `ScaleFactorChanged` at most once.
pub proof fn law_ack_dedupes(s: SurfaceState)
    ensures
        spec_ack_events(spec_acked(s)) == seq![wev(s.id, WindowEvent::RedrawRequested)],
{
    assert(spec_ack_events(spec_acked(s)) =~= seq![wev(s.id, WindowEvent::RedrawRequested)]);
}

/// A size change is reported by `Resized` carrying the new size, and a
/// configure that keeps the reported size reports none.
pub proof fn law_resized_iff_size_moved(s: SurfaceState)
    ensures
        (s.current_size != s.last_emitted_size) <==> spec_ack_events(s).contains(wev(s.id, WindowEvent::Resized(s.current_size))),
        (s.current_size == s.last_emitted_size) ==> forall|sz: Size| !spec_ack_events(s).contains(#[trigger] wev(s.id, WindowEvent::Resized(sz))),
{
    let evs = spec_ack_events(s);
    if s.current_size != s.last_emitted_size {
        assert(evs[0] == wev(s.id, WindowEvent::Resized(s.current_size)));
    } else {
        assert forall|sz: Size| !evs.contains(#[trigger] wev(s.id, WindowEvent::Resized(sz))) by {
            if evs.contains(wev(s.id, WindowEvent::Resized(sz))) {
                let k = choose|k: int| 0 <= k < evs.len() && evs[k] == wev(s.id, WindowEvent::Resized(sz));
                assert(evs[k] == wev(s.id, WindowEvent::Resized(sz)));
            }
        }
    }
}

/// A configure that leaves both axes to the client, before any size is
/// known, gives the size the surface was built with.
pub proof fn law_first_zero_configure_uses_preferred(s: SurfaceState, states: Seq<u32>)
    requires
        s.current_size == (Size { width: 0, height: 0 }),
    ensures
        spec_toplevel_configured(s, 0, 0, states).current_size == s.preferred_size,
        spec_layer_configured(s, 0, 0).current_size == s.preferred_size,
{
}

/// A zero axis in a later configure keeps the current (non-zero) length.
pub proof fn law_zero_axis_keeps_current(s: SurfaceState, width: i32, states: Seq<u32>)
    requires
        s.current_size.height > 0,
    ensures
        spec_toplevel_configured(s, width, 0, states).current_size.height == s.current_size.height,
        spec_layer_configured(s, width as u32, 0).current_size.height == s.current_size.height,
{
}

/// `Occluded` is reported only on a flip of the suspended bit: a second
/// configure with the same states reports nothing.
pub proof fn law_occluded_only_on_flip(s: SurfaceState, w1: i32, h1: i32, w2: i32, h2: i32, states: Seq<u32>)
    ensures
        spec_toplevel_configure_events(spec_toplevel_configured(s, w1, h1, states), states).len() == 0,
{
}

/// A fractional scale from the compositor overrides the outputs' integer
/// scales; without one the scale is 120 times an integer of at least 1.
pub proof fn law_scale_composition(s: SurfaceState, outputs: Seq<crate::output::OutputState>)
    ensures
        s.fractional_scale_120 matches Some(f) ==> spec_resolved_scale(s, outputs) == f as int,
        s.fractional_scale_120 is None ==> spec_resolved_scale(s, outputs) >= 120
            && spec_resolved_scale(s, outputs) % 120 == 0,
{
    lemma_max_touched_bounds(s.touched_outputs@, outputs);
}

/// The composed scale covers every overlapped output: it is at least 120
/// times the scale of each of them (when no fractional scale is set).
pub proof fn law_scale_covers_each_output(t: Seq<OutputId>, outputs: Seq<crate::output::OutputState>, i: int)
    requires
        0 <= i < t.len(),
    ensures
        max_touched_scale(t, outputs) >= output_scale_of(outputs, t[i]),
    decreases t.len(),
{
    if i < t.len() - 1 {
        law_scale_covers_each_output(t.drop_last(), outputs, i);
    }
}

/// Leaving an output removes it from the overlapped set, entering adds
/// it, and everything else stays.
pub proof fn law_touch_update_sets(t: Seq<OutputId>, oid: OutputId, x: OutputId)
    ensures
        spec_touch_update(t, oid, true).contains(x) == (t.contains(x) || x == oid),
        spec_touch_update(t, oid, false).contains(x) == (t.contains(x) && x != oid),
{
    lemma_touch_remove_contains(t, oid, x);
    if !t.contains(oid) {
        let p = t.push(oid);
        if x == oid {
            assert(p[t.len() as int] == x);
        }
        if t.contains(x) {
            let k = choose|k: int| 0 <= k < t.len() && t[k] == x;
            assert(p[k] == x);
        }
        if p.contains(x) {
            let k = choose|k: int| 0 <= k < p.len() && p[k] == x;
            if k < t.len() {
                assert(t[k] == x);
            }
        }
    }
}

/// Membership in a sequence with one more element.
pub proof fn lemma_push_contains(s: Seq<OutputId>, v: OutputId, x: OutputId)
    ensures
        s.push(v).contains(x) == (s.contains(x) || v == x),
{
    let p = s.push(v);
    if s.contains(x) {
        let k = choose|k: int| 0 <= k < s.len() && s[k] == x;
        assert(p[k] == x);
    }
    if v == x {
        assert(p[s.len() as int] == x);
    }
    if p.contains(x) {
        let k = choose|k: int| 0 <= k < p.len() && p[k] == x;
        if k < s.len() {
            assert(s[k] == x);
        }
    }
}

/// Membership after removing every occurrence of `oid`.
pub proof fn lemma_touch_remove_contains(t: Seq<OutputId>, oid: OutputId, x: OutputId)
    ensures
        spec_touch_remove(t, oid).contains(x) == (t.contains(x) && x != oid),
    decreases t.len(),
{
    if t.len() > 0 {
        let d = t.drop_last();
        let l = t.last();
        lemma_touch_remove_contains(d, oid, x);
        assert(t =~= d.push(l));
        lemma_push_contains(d, l, x);
        let r = spec_touch_remove(d, oid);
        lemma_push_contains(r, l, x);
    }
}

/// Removing an output that was never overlapped changes nothing.
pub proof fn lemma_touch_remove_absent(t: Seq<OutputId>, oid: OutputId)
    requires
        !t.contains(oid),
    ensures
        spec_touch_remove(t, oid) == t,
    decreases t.len(),
{
    if t.len() > 0 {
        assert(!t.drop_last().contains(oid)) by {
            if t.drop_last().contains(oid) {
                let k = choose|k: int| 0 <= k < t.drop_last().len() && t.drop_last()[k] == oid;
                assert(t[k] == oid);
            }
        }
        lemma_touch_remove_absent(t.drop_last(), oid);
        assert(t.last() != oid) by {
            assert(t[t.len() - 1] == t.last());
        }
        assert(t.drop_last().push(t.last()) =~= t);
    }
}

/// Entering an output and leaving it again restores the overlapped
/// outputs exactly, when the output was not overlapped before.
pub proof fn law_enter_then_leave_restores(t: Seq<OutputId>, oid: OutputId)
    requires
        !t.contains(oid),
    ensures
        spec_touch_update(spec_touch_update(t, oid, true), oid, false) == t,
{
    lemma_touch_remove_absent(t, oid);
    let p = t.push(oid);
    assert(p.drop_last() =~= t);
    assert(p.last() == oid);
    assert(spec_touch_remove(p, oid) == spec_touch_remove(t, oid));
}

/// Redraw requests coalesce: draining serves each flagged surface once,
/// and a second drain right after serves nothing.
pub proof fn law_redraw_drain_coalesces(ss: Seq<SurfaceState>)
    ensures
        spec_redraw_events(ss.map_values(|s: SurfaceState| spec_redraw_served(s))).len() == 0,
        spec_redraw_events(ss).len() <= ss.len(),
    decreases ss.len(),
{
    if ss.len() > 0 {
        law_redraw_drain_coalesces(ss.drop_last());
        let m = ss.map_values(|s: SurfaceState| spec_redraw_served(s));
        assert(m.drop_last() =~= ss.drop_last().map_values(|s: SurfaceState| spec_redraw_served(s)));
    }
}

/// Requesting a redraw twice flags the surface just as once does.
pub proof fn law_request_redraw_idempotent(s: SurfaceState)
    ensures
        (SurfaceState { needs_redraw: true, ..(SurfaceState { needs_redraw: true, ..s }) }) == (SurfaceState { needs_redraw: true, ..s }),
{
}

/// Key repeat never synthesizes more than 32 events per iteration, and
/// none before the repeat is due.
pub proof fn law_repeat_bounded(next: u64, period: int, now: u64)
    requires
        period >= 0,
    ensures
        0 <= spec_repeat_count(next, period, now) <= 32,
        next > now ==> spec_repeat_count(next, period, now) == 0,
        next <= now ==> spec_repeat_count(next, period, now) >= 1,
{
    if next <= now && period > 0 && now != u64::MAX {
        assert((now - next) / period >= 0) by (nonlinear_arith)
            requires now - next >= 0, period > 0;
    }
}

/// A frame flushes the scroll once: a second frame right after emits
/// nothing.
pub proof fn law_frame_flushes_once(p: PointerState)
    ensures
        spec_frame_events(spec_axis_reset(p)).len() == 0,
        spec_frame_events(p).len() <= 2,
{
}

/// A `done` leaves nothing staged, so a second `done` emits nothing.
pub proof fn law_ime_done_once(st: TextInputState, sid: crate::surface::SurfaceId)
    requires
        st.pending_preedit is None,
        st.pending_commit is None,
        st.pending_delete is None,
    ensures
        spec_ime_done_events(st, sid).len() == 0,
{
    assert(spec_ime_done_events(st, sid) =~= Seq::<Event<()>>::empty());
}

/// Physical size: at scale 1 it is the logical size; at a scale of at
/// least 1 it never falls below the logical size; it grows with the
/// scale; and below `u32::MAX` it is the logical size times the scale,
/// rounded up (the least whole length covering it).
pub proof fn law_physical_size(d: u32, s1: u64, s2: u64)
    ensures
        spec_physical_dim(d, 120) == d,
        s1 >= 120 ==> spec_physical_dim(d, s1) >= d,
        s1 <= s2 ==> spec_physical_dim(d, s1) <= spec_physical_dim(d, s2),
        spec_physical_dim(d, s1) < u32::MAX ==> {
            &&& spec_physical_dim(d, s1) * 120 >= d as int * s1 as int
            &&& (spec_physical_dim(d, s1) - 1) * 120 < d as int * s1 as int
        },
{
    let a = s1 as int;
    let b = s2 as int;
    assert((d as int * 120 + 119) / 120 == d as int) by (nonlinear_arith);
    if s1 >= 120 {
        assert((d as int * a + 119) / 120 >= d as int) by (nonlinear_arith) requires a >= 120, d >= 0;
    }
    let v = (d as int * a + 119) / 120;
    assert(v * 120 >= d as int * a && (v - 1) * 120 < d as int * a) by (nonlinear_arith)
        requires v == (d as int * a + 119) / 120, d >= 0, a >= 0;
    if s1 <= s2 {
        assert(d as int * a <= d as int * b) by (nonlinear_arith) requires a <= b, d >= 0, a >= 0;
        assert((d as int * a + 119) / 120 <= (d as int * b + 119) / 120) by (nonlinear_arith)
            requires d as int * a <= d as int * b;
    }
}

/// A deadline at least 50 ms away does not shorten the wait: it is as if
/// `wait_until` had not been called.
pub proof fn law_far_deadline_is_no_deadline(repeat_at: Option<u64>, deadline: u64, now: u64)
    requires
        deadline as int >= now as int + PUMP_CAP_NS as int,
    ensures
        spec_pump_timeout(repeat_at, Some(deadline), now) == spec_pump_timeout(repeat_at, None, now),
{
}

/// The wait never exceeds 50 ms nor the time left to a deadline.
pub proof fn law_pump_timeout_bounds(repeat_at: Option<u64>, deadline: Option<u64>, now: u64)
    ensures
        spec_pump_timeout(repeat_at, deadline, now) <= PUMP_CAP_NS,
        deadline matches Some(d) ==> spec_pump_timeout(repeat_at, deadline, now) <= spec_sat_sub(d, now),
        repeat_at matches Some(r) ==> spec_pump_timeout(repeat_at, deadline, now) <= spec_sat_sub(r, now),
{
}

/// Several `wait_until` calls combine to the earliest deadline, in any
/// order.
pub proof fn law_wait_until_order_free(a: u64, b: u64, c: u64)
    ensures
        spec_min_u64(spec_min_u64(a, b), c) == spec_min_u64(spec_min_u64(a, c), b),
        spec_min_u64(a, b) == spec_min_u64(b, a),
{
}


/// Releasing the held key stops its repeat; pressing a key that does not
/// repeat stops any repeat.
pub proof fn law_release_stops_repeat(
    kb: crate::keyboard::KeyboardState,
    sid: crate::surface::SurfaceId,
    key: u32,
    repeats: bool,
    code: crate::keyboard::KeyCode,
    text: Option<String>,
    now: u64,
)
    ensures
        (kb.repeating matches Some(r) && r.scancode == crate::keyboard::ScanCode(key)) ==>
            crate::keyboard::spec_repeat_after_key(kb, sid, key, crate::keyboard::KeyState::Released, repeats, code, text, now) is None,
        !repeats ==> crate::keyboard::spec_repeat_after_key(kb, sid, key, crate::keyboard::KeyState::Pressed, repeats, code, text, now) is None,
{
}

/// A press of a repeating key schedules its first repeat one delay later
/// (capped at the end of the clock).
pub proof fn law_press_schedules_after_delay(
    kb: crate::keyboard::KeyboardState,
    sid: crate::surface::SurfaceId,
    key: u32,
    code: crate::keyboard::KeyCode,
    text: Option<String>,
    now: u64,
)
    requires
        kb.repeat_rate_hz > 0,
        kb.repeat_delay_ms > 0,
        now as int + kb.repeat_delay_ms as int * 1_000_000 <= u64::MAX as int,
    ensures
        crate::keyboard::spec_repeat_after_key(kb, sid, key, crate::keyboard::KeyState::Pressed, true, code, text, now)
            matches Some(r) && r.next_fire_ns == now + kb.repeat_delay_ms * 1_000_000
            && r.surface_id == sid && r.scancode == crate::keyboard::ScanCode(key),
{
}

/// What a contact's end reports is the last position recorded for it:
/// after a down (or a motion) at `pos`, the contact's last position is
/// `pos`.
pub proof fn law_touch_last_position(positions: Seq<(i32, crate::geometry::Position)>, id: i32, pos: crate::geometry::Position)
    requires
        crate::touch::keys_unique(positions),
    ensures
        crate::touch::spec_last_position(crate::touch::assoc_insert(positions, id, pos), id) == pos,
        crate::touch::keys_unique(crate::touch::assoc_insert(positions, id, pos)),
{
    let s2 = crate::touch::assoc_insert(positions, id, pos);
    if crate::touch::has_key(positions, id) {
        let i = crate::touch::key_index(positions, id);
        assert(s2[i].0 == id);
        let j = crate::touch::key_index(s2, id);
        assert(0 <= j < s2.len() && s2[j].0 == id);
        if j != i {
            assert(positions[j].0 == id);
        }
    } else {
        let n = positions.len() as int;
        assert(s2[n].0 == id);
        let j = crate::touch::key_index(s2, id);
        assert(0 <= j < s2.len() && s2[j].0 == id);
        if j != n {
            assert(positions[j].0 == id);
        }
    }
}

/// An output the compositor has not given a scale reports scale 1.
pub proof fn law_unset_output_scale_is_one(id: OutputId, info: crate::output::OutputInfo)
    requires
        crate::output::spec_snapshot(crate::output::OutputState::spec_fresh(id), info),
    ensures
        info.scale == 1,
{
}

/// Whether some request of `reqs` names surface `x`.
pub open spec fn requested(reqs: Seq<SurfaceId>, x: SurfaceId) -> bool
    decreases reqs.len(),
{
    reqs.len() > 0 && (reqs.last() == x || requested(reqs.drop_last(), x))
}

/// The toplevels and layer surfaces after the consumer's redraw requests
/// `reqs`, in order.
pub open spec fn spec_after_redraw_requests(tl: Seq<SurfaceState>, ls: Seq<SurfaceState>, reqs: Seq<SurfaceId>) -> (Seq<SurfaceState>, Seq<SurfaceState>)
    decreases reqs.len(),
{
    if reqs.len() == 0 {
        (tl, ls)
    } else {
        let p = spec_after_redraw_requests(tl, ls, reqs.drop_last());
        spec_after_redraw_request(p.0, p.1, reqs.last())
    }
}

/// One `RedrawRequested` for each surface of `ss`, in order, that some
/// request of `reqs` names and that is not in `skip`.
pub open spec fn spec_requested_redraws(ss: Seq<SurfaceState>, reqs: Seq<SurfaceId>, skip: Seq<SurfaceState>) -> Seq<Event<()>>
    decreases ss.len(),
{
    if ss.len() == 0 {
        Seq::empty()
    } else {
        spec_requested_redraws(ss.drop_last(), reqs, skip) + (if requested(reqs, ss.last().id) && !has_id(skip, ss.last().id) {
            seq![wev(ss.last().id, WindowEvent::RedrawRequested)]
        } else {
            Seq::empty()
        })
    }
}

/// No surface of `ss` is flagged for redraw.
pub open spec fn none_flagged(ss: Seq<SurfaceState>) -> bool {
    forall|i: int| 0 <= i < ss.len() ==> !(#[trigger] ss[i]).needs_redraw
}

/// Redraw requests coalesce. Starting from served flags, after any
/// sequence of requests the next drain emits exactly one
/// `RedrawRequested` per requested surface, in list order (toplevels
/// first; a layer surface only when no toplevel has its identifier),
/// none for the others, however many times each was requested; and
/// the drain leaves the surfaces exactly as before the requests.
pub proof fn law_redraw_requests_coalesce(tl: Seq<SurfaceState>, ls: Seq<SurfaceState>, reqs: Seq<SurfaceId>)
    requires
        ids_unique(tl),
        ids_unique(ls),
        none_flagged(tl),
        none_flagged(ls),
    ensures
        ({
            let after = spec_after_redraw_requests(tl, ls, reqs);
            &&& spec_redraw_events(after.0) == spec_requested_redraws(tl, reqs, Seq::empty())
            &&& spec_redraw_events(after.1) == spec_requested_redraws(ls, reqs, tl)
            &&& after.0.map_values(|s: SurfaceState| spec_redraw_served(s)) == tl
            &&& after.1.map_values(|s: SurfaceState| spec_redraw_served(s)) == ls
        }),
{
    let after = spec_after_redraw_requests(tl, ls, reqs);
    lemma_requests_shape(tl, ls, reqs);
    lemma_requested_events(tl, after.0, reqs, Seq::empty());
    lemma_requested_events(ls, after.1, reqs, tl);
    assert(after.0.map_values(|s: SurfaceState| spec_redraw_served(s)) =~= tl);
    assert(after.1.map_values(|s: SurfaceState| spec_redraw_served(s)) =~= ls);
}

/// `cur` is `orig` with the redraw flag of each surface set exactly when
/// some request names it and `skip` does not hold it.
pub open spec fn flagged_as_requested(orig: Seq<SurfaceState>, cur: Seq<SurfaceState>, reqs: Seq<SurfaceId>, skip: Seq<SurfaceState>) -> bool {
    &&& cur.len() == orig.len()
    &&& forall|i: int| 0 <= i < orig.len() ==> #[trigger] cur[i] == (SurfaceState {
        needs_redraw: requested(reqs, orig[i].id) && !has_id(skip, orig[i].id),
        ..orig[i]
    })
}

/// Flagging surface `sid` in a list with unique identifiers flags that
/// surface alone.
proof fn lemma_update_flag(ss: Seq<SurfaceState>, sid: SurfaceId)
    requires
        ids_unique(ss),
    ensures
        ({
            let r = update_id(ss, sid, |s: SurfaceState| spec_flag_redraw(s));
            &&& r.len() == ss.len()
            &&& forall|i: int| 0 <= i < ss.len() ==> #[trigger] r[i] == (if ss[i].id == sid { spec_flag_redraw(ss[i]) } else { ss[i] })
        }),
{
    if has_id(ss, sid) {
        let k = crate::surfaces::index_of_id(ss, sid);
        assert(0 <= k < ss.len() && ss[k].id == sid);
    }
}

/// Lists whose identifiers agree position by position hold the same
/// identifiers.
proof fn lemma_same_ids(a: Seq<SurfaceState>, b: Seq<SurfaceState>, x: SurfaceId)
    requires
        a.len() == b.len(),
        forall|i: int| 0 <= i < a.len() ==> (#[trigger] a[i]).id == b[i].id,
    ensures
        has_id(a, x) == has_id(b, x),
        ids_unique(a) ==> ids_unique(b),
{
    if has_id(a, x) {
        let k = choose|i: int| 0 <= i < a.len() && #[trigger] a[i].id == x;
        assert(b[k].id == x);
    }
    if has_id(b, x) {
        let k = choose|i: int| 0 <= i < b.len() && #[trigger] b[i].id == x;
        assert(a[k].id == x);
    }
    if ids_unique(a) {
        assert forall|i: int, j: int| 0 <= i < b.len() && 0 <= j < b.len() && i != j implies b[i].id != b[j].id by {
            assert(a[i].id != a[j].id);
        }
    }
}

/// The shape of the lists after the requests `reqs`.
proof fn lemma_requests_shape(tl: Seq<SurfaceState>, ls: Seq<SurfaceState>, reqs: Seq<SurfaceId>)
    requires
        ids_unique(tl),
        ids_unique(ls),
        none_flagged(tl),
        none_flagged(ls),
    ensures
        ({
            let after = spec_after_redraw_requests(tl, ls, reqs);
            &&& flagged_as_requested(tl, after.0, reqs, Seq::empty())
            &&& flagged_as_requested(ls, after.1, reqs, tl)
            &&& ids_unique(after.0)
            &&& ids_unique(after.1)
        }),
    decreases reqs.len(),
{
    let after = spec_after_redraw_requests(tl, ls, reqs);
    let empty = Seq::<SurfaceState>::empty();
    assert forall|x: SurfaceId| !has_id(empty, x) by {}
    if reqs.len() == 0 {
        assert forall|i: int| 0 <= i < tl.len() implies #[trigger] after.0[i] == (SurfaceState {
            needs_redraw: requested(reqs, tl[i].id) && !has_id(empty, tl[i].id),
            ..tl[i]
        }) by {
            assert(!tl[i].needs_redraw);
        }
        assert forall|i: int| 0 <= i < ls.len() implies #[trigger] after.1[i] == (SurfaceState {
            needs_redraw: requested(reqs, ls[i].id) && !has_id(tl, ls[i].id),
            ..ls[i]
        }) by {
            assert(!ls[i].needs_redraw);
        }
    } else {
        let prev = reqs.drop_last();
        let r = reqs.last();
        lemma_requests_shape(tl, ls, prev);
        let p = spec_after_redraw_requests(tl, ls, prev);
        assert(after == spec_after_redraw_request(p.0, p.1, r));
        lemma_same_ids(tl, p.0, r);
        lemma_same_ids(ls, p.1, r);
        lemma_update_flag(p.0, r);
        assert forall|i: int| 0 <= i < tl.len() implies #[trigger] after.0[i] == (SurfaceState {
            needs_redraw: requested(reqs, tl[i].id) && !has_id(empty, tl[i].id),
            ..tl[i]
        }) by {
            assert(p.0[i].id == tl[i].id);
        }
        if has_id(p.0, r) {
            assert(after.1 == p.1);
            assert forall|i: int| 0 <= i < ls.len() implies #[trigger] after.1[i] == (SurfaceState {
                needs_redraw: requested(reqs, ls[i].id) && !has_id(tl, ls[i].id),
                ..ls[i]
            }) by {
                assert(p.1[i].id == ls[i].id);
            }
        } else {
            lemma_update_flag(p.1, r);
            assert forall|i: int| 0 <= i < ls.len() implies #[trigger] after.1[i] == (SurfaceState {
                needs_redraw: requested(reqs, ls[i].id) && !has_id(tl, ls[i].id),
                ..ls[i]
            }) by {
                assert(p.1[i].id == ls[i].id);
            }
        }
        assert forall|i: int| 0 <= i < tl.len() implies (#[trigger] tl[i]).id == after.0[i].id by {}
        assert forall|i: int| 0 <= i < ls.len() implies (#[trigger] ls[i]).id == after.1[i].id by {}
        lemma_same_ids(tl, after.0, r);
        lemma_same_ids(ls, after.1, r);
    }
}

/// The redraw events of a list flagged as requested.
proof fn lemma_requested_events(orig: Seq<SurfaceState>, cur: Seq<SurfaceState>, reqs: Seq<SurfaceId>, skip: Seq<SurfaceState>)
    requires
        flagged_as_requested(orig, cur, reqs, skip),
    ensures
        spec_redraw_events(cur) == spec_requested_redraws(orig, reqs, skip),
    decreases orig.len(),
{
    if orig.len() > 0 {
        let n = orig.len() - 1;
        assert forall|i: int| 0 <= i < orig.drop_last().len() implies #[trigger] cur.drop_last()[i] == (SurfaceState {
            needs_redraw: requested(reqs, orig.drop_last()[i].id) && !has_id(skip, orig.drop_last()[i].id),
            ..orig.drop_last()[i]
        }) by {
            assert(cur[i] == cur.drop_last()[i]);
        }
        lemma_requested_events(orig.drop_last(), cur.drop_last(), reqs, skip);
        assert(cur[n] == cur.last());
    }
}

/// Every output identifier of `os` is between 1 and `next`, the last one
/// handed out.
pub open spec fn output_ids_bounded(os: Seq<crate::output::OutputState>, next: u64) -> bool {
    forall|i: int| 0 <= i < os.len() ==> 1 <= (#[trigger] os[i]).id.0 <= next
}

/// A freshly handed out output identifier is new: no known output has
/// it (before the counter reaches the end of `u64`).
pub proof fn law_fresh_output_id_is_new(os: Seq<crate::output::OutputState>, next: u64)
    requires
        output_ids_bounded(os, next),
        next < u64::MAX,
    ensures
        !crate::surfaces::has_output(os, OutputId((next + 1) as u64)),
{
    if crate::surfaces::has_output(os, OutputId((next + 1) as u64)) {
        let k = choose|i: int| 0 <= i < os.len() && #[trigger] os[i].id == OutputId((next + 1) as u64);
        assert(os[k].id.0 <= next);
    }
}

/// An output keeps one identifier for its lifetime, and identifiers stay
/// fresh. A `wl_output` event for a known output (`known`, one of the
/// outputs) or a new one (identifier `next + 1`) updates the outputs as
/// `Surfaces::output_event` does: every output known before is still
/// known under the same identifier, the event's output is known under
/// `id`, and every identifier stays between 1 and the last one handed out.
pub proof fn law_output_ids_kept(
    os: Seq<crate::output::OutputState>,
    next: u64,
    known: Option<OutputId>,
    id: OutputId,
    ev: crate::output::OutputEvent,
    x: OutputId,
)
    requires
        output_ids_bounded(os, next),
        next < u64::MAX,
        known matches Some(k) ==> crate::surfaces::has_output(os, k) && id == k,
        known is None ==> id.0 == next + 1,
    ensures
        ({
            let staged = crate::surfaces::spec_outputs_with(os, id, crate::output::OutputState::spec_fresh(id));
            let i = crate::surfaces::output_index(staged, id);
            let after = staged.update(i, crate::surfaces::spec_output_applied(staged[i], ev));
            let next2: u64 = if known is None { (next + 1) as u64 } else { next };
            &&& crate::surfaces::has_output(after, id)
            &&& crate::surfaces::has_output(os, x) ==> crate::surfaces::has_output(after, x)
            &&& output_ids_bounded(after, next2)
        }),
{
    let fresh = crate::output::OutputState::spec_fresh(id);
    let staged = crate::surfaces::spec_outputs_with(os, id, fresh);
    let next2: u64 = if known is None { (next + 1) as u64 } else { next };
    if !crate::surfaces::has_output(os, id) {
        let n = os.len() as int;
        assert(staged[n].id == id);
    }
    assert(crate::surfaces::has_output(staged, id));
    let i = crate::surfaces::output_index(staged, id);
    assert(0 <= i < staged.len() && staged[i].id == id);
    let after = staged.update(i, crate::surfaces::spec_output_applied(staged[i], ev));
    assert(after[i].id == id);
    assert(crate::surfaces::has_output(after, id));
    if crate::surfaces::has_output(os, x) {
        let k = choose|j: int| 0 <= j < os.len() && #[trigger] os[j].id == x;
        assert(staged[k] == os[k]);
        if k == i {
            assert(after[k].id == x);
        } else {
            assert(after[k] == staged[k]);
        }
    }
    assert forall|j: int| 0 <= j < after.len() implies 1 <= (#[trigger] after[j]).id.0 <= next2 by {
        if j == i {
            assert(after[j].id == id);
            if let Some(k) = known {
                let m = choose|t: int| 0 <= t < os.len() && #[trigger] os[t].id == k;
                assert(1 <= os[m].id.0 <= next);
            }
        } else {
            assert(after[j] == staged[j]);
            if j < os.len() {
                assert(staged[j] == os[j]);
            }
        }
    }
}

/// Configure: a positive size from the compositor is taken as is, on
/// each axis, whatever the current and preferred sizes (it may shrink
/// the window); and once acked it is the size reported and the viewport
/// destination.
pub proof fn law_positive_configure_is_taken(s: SurfaceState, w: i32, h: i32, states: Seq<u32>)
    ensures
        w > 0 ==> spec_toplevel_configured(s, w, h, states).current_size.width == w as u32,
        h > 0 ==> spec_toplevel_configured(s, w, h, states).current_size.height == h as u32,
        w > 0 ==> spec_layer_configured(s, w as u32, h as u32).current_size.width == w as u32,
        h > 0 ==> spec_layer_configured(s, w as u32, h as u32).current_size.height == h as u32,
        w > 0 && h > 0 ==> spec_acked(spec_toplevel_configured(s, w, h, states)).last_emitted_size
            == (Size { width: w as u32, height: h as u32 }),
        w > 0 && h > 0 ==> crate::surfaces::spec_viewport_dest(spec_toplevel_configured(s, w, h, states).current_size) == (w, h),
        w > 0 && h > 0 && s.last_emitted_size != (Size { width: w as u32, height: h as u32 })
            ==> spec_ack_events(spec_toplevel_configured(s, w, h, states))[0]
                == wev(s.id, WindowEvent::Resized(Size { width: w as u32, height: h as u32 })),
{
}

/// Key text: an empty string or one control character (below U+0020,
/// or DEL) carries no text; any other string, such as a single space or
/// printable character, is the key's text unchanged.
pub proof fn law_key_text(t: String)
    ensures
        t@.len() == 0 ==> crate::keyboard::spec_key_text(t) is None,
        t@.len() == 1 && ((t@[0] as u32) < 0x20 || (t@[0] as u32) == 0x7f) ==> crate::keyboard::spec_key_text(t) is None,
        t@.len() == 1 && (t@[0] as u32) >= 0x20 && (t@[0] as u32) != 0x7f ==> crate::keyboard::spec_key_text(t) == Some(t),
        t@.len() >= 2 ==> crate::keyboard::spec_key_text(t) == Some(t),
{
}

/// A press that arms key repeat records the pressed key as it was
/// reported, so that every synthesized repeat is the press event again
/// (same surface, scancode, logical key, text, current modifiers), with
/// `repeat: true`; the first one is due one delay after the press.
pub proof fn law_repeat_repeats_the_press(
    kb: crate::keyboard::KeyboardState,
    sid: SurfaceId,
    key: u32,
    code: crate::keyboard::KeyCode,
    text: Option<String>,
    now: u64,
    mods: crate::keyboard::Modifiers,
)
    ensures
        crate::keyboard::spec_repeat_after_key(kb, sid, key, crate::keyboard::KeyState::Pressed, true, code, text, now) matches Some(r) ==> {
            &&& r.surface_id == sid
            &&& r.scancode == crate::keyboard::ScanCode(key)
            &&& r.key_code == code
            &&& r.text == text
            &&& r.next_fire_ns >= now
            &&& crate::keyboard::spec_repeat_event(r, mods) == wev(sid, WindowEvent::Key(crate::keyboard::KeyEvent {
                scancode: crate::keyboard::ScanCode(key),
                key_code: code,
                modifiers: mods,
                state: crate::keyboard::KeyState::Pressed,
                text,
                repeat: true,
            }))
        },
        kb.repeat_rate_hz > 0 && kb.repeat_delay_ms > 0 ==>
            crate::keyboard::spec_repeat_after_key(kb, sid, key, crate::keyboard::KeyState::Pressed, true, code, text, now) is Some,
{
}

/// A scroll event a frame flushes for pointer state `p`: on the focused
/// surface, with the announced source (a wheel when none), and carrying
/// the accumulated values of its own axis: the horizontal ones as they
/// are, the vertical ones negated (positive scrolls up).
pub open spec fn is_flushed_scroll(p: PointerState, e: Event<()>) -> bool {
    match e {
        Event::WindowEvent { surface_id, event: WindowEvent::Scroll(se) } => {
            &&& p.focused_surface == Some(surface_id)
            &&& se.source == (match p.axis_source {
                Some(src) => src,
                None => crate::pointer::AxisSource::Wheel,
            })
            &&& match se.axis {
                crate::pointer::AxisDirection::Horizontal => {
                    &&& se.delta_fixed == p.axis_horizontal
                    &&& se.discrete_steps == p.axis_discrete_h
                    &&& se.high_res_120 == p.axis_value120_h
                },
                crate::pointer::AxisDirection::Vertical => {
                    &&& (p.axis_vertical > i64::MIN ==> se.delta_fixed == -p.axis_vertical)
                    &&& (p.axis_discrete_v > i32::MIN ==> se.discrete_steps == -p.axis_discrete_v)
                    &&& (p.axis_value120_v > i32::MIN ==> se.high_res_120 == -p.axis_value120_v)
                },
            }
        },
        _ => false,
    }
}

/// A frame flushes, for a focused pointer with scroll pending, one
/// vertical event when some vertical value is non-zero and then one
/// horizontal event when some horizontal value is non-zero, each
/// carrying its own axis's values; otherwise nothing.
pub proof fn law_frame_scroll_values(p: PointerState)
    ensures
        ({
            let ev = spec_frame_events(p);
            let v = p.axis_vertical != 0 || p.axis_discrete_v != 0 || p.axis_value120_v != 0;
            let h = p.axis_horizontal != 0 || p.axis_discrete_h != 0 || p.axis_value120_h != 0;
            &&& (!p.axis_pending || p.focused_surface is None) ==> ev.len() == 0
            &&& (p.axis_pending && p.focused_surface is Some) ==> ev.len() == (if v { 1int } else { 0 }) + (if h { 1int } else { 0 })
            &&& forall|i: int| 0 <= i < ev.len() ==> is_flushed_scroll(p, #[trigger] ev[i])
            &&& (ev.len() > 0 && v) ==> (ev[0] matches Event::WindowEvent { event: WindowEvent::Scroll(se), .. }
                && se.axis == crate::pointer::AxisDirection::Vertical)
            &&& (ev.len() > 0 && h) ==> (ev[ev.len() - 1] matches Event::WindowEvent { event: WindowEvent::Scroll(se), .. }
                && se.axis == crate::pointer::AxisDirection::Horizontal)
        }),
{
    let ev = spec_frame_events(p);
    if p.axis_pending && p.focused_surface is Some {
        assert forall|i: int| 0 <= i < ev.len() implies is_flushed_scroll(p, #[trigger] ev[i]) by {}
    }
}

/// The icon named by a `wp_cursor_shape_device_v1.shape` wire value.
pub open spec fn cursor_of_wire(v: u32) -> Option<CursorIcon> {
    if v == 0 {
        None
    } else if v == 1 {
        Some(CursorIcon::Default)
    } else if v == 2 {
        Some(CursorIcon::ContextMenu)
    } else if v == 3 {
        Some(CursorIcon::Help)
    } else if v == 4 {
        Some(CursorIcon::Pointer)
    } else if v == 5 {
        Some(CursorIcon::Progress)
    } else if v == 6 {
        Some(CursorIcon::Wait)
    } else if v == 7 {
        Some(CursorIcon::Cell)
    } else if v == 8 {
        Some(CursorIcon::Crosshair)
    } else if v == 9 {
        Some(CursorIcon::Text)
    } else if v == 10 {
        Some(CursorIcon::VerticalText)
    } else if v == 11 {
        Some(CursorIcon::Alias)
    } else if v == 12 {
        Some(CursorIcon::Copy)
    } else if v == 13 {
        Some(CursorIcon::Move)
    } else if v == 14 {
        Some(CursorIcon::NoDrop)
    } else if v == 15 {
        Some(CursorIcon::NotAllowed)
    } else if v == 16 {
        Some(CursorIcon::Grab)
    } else if v == 17 {
        Some(CursorIcon::Grabbing)
    } else if v == 18 {
        Some(CursorIcon::EResize)
    } else if v == 19 {
        Some(CursorIcon::NResize)
    } else if v == 20 {
        Some(CursorIcon::NeResize)
    } else if v == 21 {
        Some(CursorIcon::NwResize)
    } else if v == 22 {
        Some(CursorIcon::SResize)
    } else if v == 23 {
        Some(CursorIcon::SeResize)
    } else if v == 24 {
        Some(CursorIcon::SwResize)
    } else if v == 25 {
        Some(CursorIcon::WResize)
    } else if v == 26 {
        Some(CursorIcon::EwResize)
    } else if v == 27 {
        Some(CursorIcon::NsResize)
    } else if v == 28 {
        Some(CursorIcon::NeswResize)
    } else if v == 29 {
        Some(CursorIcon::NwseResize)
    } else if v == 30 {
        Some(CursorIcon::ColResize)
    } else if v == 31 {
        Some(CursorIcon::RowResize)
    } else if v == 32 {
        Some(CursorIcon::AllScroll)
    } else if v == 33 {
        Some(CursorIcon::ZoomIn)
    } else if v == 34 {
        Some(CursorIcon::ZoomOut)
    } else {
        None
    }
}

/// Cursor shapes follow the protocol's numbering: each icon is sent as
/// the `wp_cursor_shape_device_v1.shape` value of the same name, so the
/// map is one to one (no two icons share a wire value) and every value
/// from 1 to 34 names exactly one icon.
pub proof fn law_cursor_wire_is_protocol_numbering(a: CursorIcon, b: CursorIcon)
    ensures
        cursor_of_wire(spec_cursor_wire(a)) == Some(a),
        spec_cursor_wire(a) == spec_cursor_wire(b) ==> a == b,
        1 <= spec_cursor_wire(a) <= 34,
        spec_cursor_wire(CursorIcon::Default) == 1,
        spec_cursor_wire(CursorIcon::ContextMenu) == 2,
        spec_cursor_wire(CursorIcon::Help) == 3,
        spec_cursor_wire(CursorIcon::Pointer) == 4,
        spec_cursor_wire(CursorIcon::Progress) == 5,
        spec_cursor_wire(CursorIcon::Wait) == 6,
        spec_cursor_wire(CursorIcon::Cell) == 7,
        spec_cursor_wire(CursorIcon::Crosshair) == 8,
        spec_cursor_wire(CursorIcon::Text) == 9,
        spec_cursor_wire(CursorIcon::VerticalText) == 10,
        spec_cursor_wire(CursorIcon::Alias) == 11,
        spec_cursor_wire(CursorIcon::Copy) == 12,
        spec_cursor_wire(CursorIcon::Move) == 13,
        spec_cursor_wire(CursorIcon::NoDrop) == 14,
        spec_cursor_wire(CursorIcon::NotAllowed) == 15,
        spec_cursor_wire(CursorIcon::Grab) == 16,
        spec_cursor_wire(CursorIcon::Grabbing) == 17,
        spec_cursor_wire(CursorIcon::EResize) == 18,
        spec_cursor_wire(CursorIcon::NResize) == 19,
        spec_cursor_wire(CursorIcon::NeResize) == 20,
        spec_cursor_wire(CursorIcon::NwResize) == 21,
        spec_cursor_wire(CursorIcon::SResize) == 22,
        spec_cursor_wire(CursorIcon::SeResize) == 23,
        spec_cursor_wire(CursorIcon::SwResize) == 24,
        spec_cursor_wire(CursorIcon::WResize) == 25,
        spec_cursor_wire(CursorIcon::EwResize) == 26,
        spec_cursor_wire(CursorIcon::NsResize) == 27,
        spec_cursor_wire(CursorIcon::NeswResize) == 28,
        spec_cursor_wire(CursorIcon::NwseResize) == 29,
        spec_cursor_wire(CursorIcon::ColResize) == 30,
        spec_cursor_wire(CursorIcon::RowResize) == 31,
        spec_cursor_wire(CursorIcon::AllScroll) == 32,
        spec_cursor_wire(CursorIcon::ZoomIn) == 33,
        spec_cursor_wire(CursorIcon::ZoomOut) == 34,
{
    assert(cursor_of_wire(spec_cursor_wire(b)) == Some(b));
}

} // verus!
