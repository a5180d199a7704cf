//! Per-surface state shared by toplevels and layer surfaces: the
//! configure handshake, redraw flags and the scale-factor composition
//! over the outputs a surface overlaps.
use vstd::prelude::*;
use crate::event::{Event, WindowEvent, wev};
use crate::geometry::Size;
use crate::output::{OutputEvent, OutputId, OutputInfo, OutputState, OUTPUT_MODE_CURRENT, spec_max, spec_snapshot};
use crate::surface::SurfaceId;

verus! {

/// The xdg-shell `activated` toplevel state value.
pub const XDG_STATE_ACTIVATED: u32 = 4;

/// The xdg-shell (v6) `suspended` toplevel state value.
pub const XDG_STATE_SUSPENDED: u32 = 9;

/// State of one toplevel or layer surface.
///
/// Scale factors are in 1/120 units: `120` is a scale of 1.0.
pub struct SurfaceState {
    /// The surface's identifier.
    pub id: SurfaceId,
    /// Logical size as last set by a configure; zero until the first one.
    pub current_size: Size,
    /// Size asked for at build time; used on axes the compositor leaves
    /// to the client before any size is known.
    pub preferred_size: Size,
    /// Configure serial awaiting an ack (`None` once acked).
    pub pending_ack: Option<u32>,
    /// Closed by the consumer (toplevel) or by the compositor (layer).
    pub closed: bool,
    /// `activated` bit of the last toplevel configure.
    pub activated: bool,
    /// `suspended` bit of the last toplevel configure.
    pub suspended: bool,
    /// Effective scale factor, 1/120 units.
    pub scale_120: u64,
    /// Size last reported through `Resized`.
    pub last_emitted_size: Size,
    /// Scale last reported through `ScaleFactorChanged` (0 = never).
    pub last_emitted_scale_120: u64,
    /// A redraw was requested and not yet served.
    pub needs_redraw: bool,
    /// Last preferred scale from the fractional-scale protocol.
    pub fractional_scale_120: Option<u32>,
    /// Outputs the surface currently overlaps.
    pub touched_outputs: Vec<OutputId>,
}

/// The freshly built state of a surface.
pub open spec fn spec_fresh_surface(s: SurfaceState, id: SurfaceId, preferred: Size) -> bool {
    &&& s.id == id
    &&& s.current_size == Size { width: 0, height: 0 }
    &&& s.preferred_size == preferred
    &&& s.pending_ack is None
    &&& !s.closed
    &&& !s.activated
    &&& !s.suspended
    &&& s.scale_120 == 120
    &&& s.last_emitted_size == Size { width: 0, height: 0 }
    &&& s.last_emitted_scale_120 == 0
    &&& !s.needs_redraw
    &&& s.fractional_scale_120 is None
    &&& s.touched_outputs@ == Seq::<OutputId>::empty()
}

impl SurfaceState {
    /// State of a surface just built with the given preferred size.
    pub fn fresh(id: SurfaceId, preferred: Size) -> (s: SurfaceState)
        ensures
            spec_fresh_surface(s, id, preferred),
    {
        SurfaceState {
            id,
            current_size: Size { width: 0, height: 0 },
            preferred_size: preferred,
            pending_ack: None,
            closed: false,
            activated: false,
            suspended: false,
            scale_120: 120,
            last_emitted_size: Size { width: 0, height: 0 },
            last_emitted_scale_120: 0,
            needs_redraw: false,
            fractional_scale_120: None,
            touched_outputs: Vec::new(),
        }
    }
}

/// Whether some surface of `ss` has identifier `sid`.
pub open spec fn has_id(ss: Seq<SurfaceState>, sid: SurfaceId) -> bool {
    exists|i: int| 0 <= i < ss.len() && #[trigger] ss[i].id == sid
}

/// The position of the surface with identifier `sid` (meaningful when
/// [`has_id`] holds).
pub open spec fn index_of_id(ss: Seq<SurfaceState>, sid: SurfaceId) -> int {
    choose|i: int| 0 <= i < ss.len() && #[trigger] ss[i].id == sid
}

/// No two surfaces share an identifier.
pub open spec fn ids_unique(ss: Seq<SurfaceState>) -> bool {
    forall|i: int, j: int| 0 <= i < ss.len() && 0 <= j < ss.len() && i != j ==> ss[i].id != ss[j].id
}

/// Applies `f` to the surface with identifier `sid`, if there is one.
pub open spec fn update_id(ss: Seq<SurfaceState>, sid: SurfaceId, f: spec_fn(SurfaceState) -> SurfaceState) -> Seq<SurfaceState> {
    if has_id(ss, sid) {
        ss.update(index_of_id(ss, sid), f(ss[index_of_id(ss, sid)]))
    } else {
        ss
    }
}

/// With unique identifiers, the position of `sid` is the one position
/// holding it.
pub proof fn lemma_index_of_id(ss: Seq<SurfaceState>, sid: SurfaceId, i: int)
    requires
        ids_unique(ss),
        0 <= i < ss.len(),
        ss[i].id == sid,
    ensures
        has_id(ss, sid),
        index_of_id(ss, sid) == i,
{
    assert(ss[i].id == sid);
    let k = index_of_id(ss, sid);
    assert(0 <= k < ss.len() && ss[k].id == sid);
}

/// Position of the surface with identifier `sid`.
pub fn find_surface(ss: &Vec<SurfaceState>, sid: SurfaceId) -> (r: Option<usize>)
    requires
        ids_unique(ss@),
    ensures
        r is None <==> !has_id(ss@, sid),
        r matches Some(i) ==> i < ss@.len() && ss@[i as int].id == sid && index_of_id(ss@, sid) == i,
{
    let n = ss.len();
    let mut i: usize = 0;
    while i < n
        invariant
            n == ss@.len(),
            i <= n,
            ids_unique(ss@),
            forall|j: int| 0 <= j < i ==> ss@[j].id != sid,
        decreases n - i,
    {
        if ss[i].id == sid {
            proof {
                lemma_index_of_id(ss@, sid, i as int);
            }
            return Some(i);
        }
        i = i + 1;
    }
    None
}

/// Take the surface at `i` out of `ss`, leaving a placeholder with the
/// same identifier.
fn take_surface(ss: &mut Vec<SurfaceState>, i: usize) -> (s: SurfaceState)
    requires
        i < old(ss)@.len(),
    ensures
        s == old(ss)@[i as int],
        final(ss)@.len() == old(ss)@.len(),
        final(ss)@[i as int].id == old(ss)@[i as int].id,
        forall|j: int| 0 <= j < old(ss)@.len() && j != i ==> final(ss)@[j] == old(ss)@[j],
{
    let id = ss[i].id;
    let placeholder = SurfaceState::fresh(id, Size { width: 0, height: 0 });
    let s = ss.remove(i);
    ss.insert(i, placeholder);
    s
}

/// Put `s` back at position `i`.
fn put_surface(ss: &mut Vec<SurfaceState>, i: usize, s: SurfaceState)
    requires
        i < old(ss)@.len(),
    ensures
        final(ss)@ == old(ss)@.update(i as int, s),
{
    ss.remove(i);
    ss.insert(i, s);
    assert(ss@ =~= old(ss)@.update(i as int, s));
}

/// Dimension chosen by a toplevel configure: the compositor's value when
/// positive, else the current one when known, else the preferred one.
pub open spec fn spec_toplevel_dim(req: i32, cur: u32, pref: u32) -> u32 {
    if req > 0 {
        req as u32
    } else if cur > 0 {
        cur
    } else {
        pref
    }
}

/// Dimension chosen by a layer-surface configure.
pub open spec fn spec_layer_dim(req: u32, cur: u32, pref: u32) -> u32 {
    if req > 0 {
        req
    } else if cur > 0 {
        cur
    } else {
        pref
    }
}

/// State after an `xdg_toplevel.configure`.
pub open spec fn spec_toplevel_configured(s: SurfaceState, width: i32, height: i32, states: Seq<u32>) -> SurfaceState {
    SurfaceState {
        current_size: Size {
            width: spec_toplevel_dim(width, s.current_size.width, s.preferred_size.width),
            height: spec_toplevel_dim(height, s.current_size.height, s.preferred_size.height),
        },
        activated: states.contains(XDG_STATE_ACTIVATED),
        suspended: states.contains(XDG_STATE_SUSPENDED),
        ..s
    }
}

/// Events of an `xdg_toplevel.configure`: `Occluded` only when the
/// suspended bit flips.
pub open spec fn spec_toplevel_configure_events(s: SurfaceState, states: Seq<u32>) -> Seq<Event<()>> {
    if s.suspended != states.contains(XDG_STATE_SUSPENDED) {
        seq![wev(s.id, WindowEvent::Occluded(states.contains(XDG_STATE_SUSPENDED)))]
    } else {
        Seq::empty()
    }
}

/// State after a configure is acked: the size and scale are recorded as
/// reported.
pub open spec fn spec_acked(s: SurfaceState) -> SurfaceState {
    SurfaceState {
        pending_ack: None,
        last_emitted_size: s.current_size,
        last_emitted_scale_120: s.scale_120,
        ..s
    }
}

/// Events of an acked configure: `Resized` when the size moved since the
/// last report, `ScaleFactorChanged` when the scale moved, then always
/// `RedrawRequested`.
pub open spec fn spec_ack_events(s: SurfaceState) -> Seq<Event<()>> {
    (if s.current_size != s.last_emitted_size {
        seq![wev(s.id, WindowEvent::Resized(s.current_size))]
    } else {
        Seq::empty()
    }) + (if s.scale_120 != s.last_emitted_scale_120 {
        seq![wev(s.id, WindowEvent::ScaleFactorChanged { scale_120: s.scale_120, suggested_size: s.current_size })]
    } else {
        Seq::empty()
    }) + seq![wev(s.id, WindowEvent::RedrawRequested)]
}

/// Viewport destination for a logical size: each axis at least 1.
pub open spec fn spec_viewport_dest(sz: Size) -> (i32, i32) {
    (
        (if sz.width >= 1 { sz.width } else { 1u32 }) as i32,
        (if sz.height >= 1 { sz.height } else { 1u32 }) as i32,
    )
}

/// State after a layer-surface configure (size chosen, then acked).
pub open spec fn spec_layer_configured(s: SurfaceState, width: u32, height: u32) -> SurfaceState {
    SurfaceState {
        current_size: Size {
            width: spec_layer_dim(width, s.current_size.width, s.preferred_size.width),
            height: spec_layer_dim(height, s.current_size.height, s.preferred_size.height),
        },
        ..s
    }
}

/// Viewport destination for a logical size: each axis at least 1.
pub fn viewport_dest(sz: Size) -> (r: (i32, i32))
    ensures
        r == spec_viewport_dest(sz),
{
    let w: u32 = if sz.width >= 1 { sz.width } else { 1 };
    let h: u32 = if sz.height >= 1 { sz.height } else { 1 };
    (w as i32, h as i32)
}

/// Whether `states` holds `v`.
fn states_contain(states: &[u32], v: u32) -> (b: bool)
    ensures
        b == states@.contains(v),
{
    let n = states.len();
    let mut i: usize = 0;
    while i < n
        invariant
            n == states@.len(),
            i <= n,
            forall|j: int| 0 <= j < i ==> states@[j] != v,
        decreases n - i,
    {
        if states[i] == v {
            assert(states@[i as int] == v);
            return true;
        }
        i = i + 1;
    }
    false
}

/// Apply an `xdg_toplevel.configure` to one state.
fn configure_toplevel_state(s: &mut SurfaceState, width: i32, height: i32, states: &[u32], out: &mut Vec<Event<()>>)
    ensures
        *final(s) == spec_toplevel_configured(*old(s), width, height, states@),
        final(out)@ == old(out)@ + spec_toplevel_configure_events(*old(s), states@),
{
    let w: u32 = if width > 0 {
        width as u32
    } else if s.current_size.width > 0 {
        s.current_size.width
    } else {
        s.preferred_size.width
    };
    let h: u32 = if height > 0 {
        height as u32
    } else if s.current_size.height > 0 {
        s.current_size.height
    } else {
        s.preferred_size.height
    };
    s.current_size = Size { width: w, height: h };
    let activated = states_contain(states, XDG_STATE_ACTIVATED);
    let suspended = states_contain(states, XDG_STATE_SUSPENDED);
    s.activated = activated;
    if s.suspended != suspended {
        s.suspended = suspended;
        out.push(Event::WindowEvent { surface_id: s.id, event: WindowEvent::Occluded(suspended) });
    }
    assert(out@ =~= old(out)@ + spec_toplevel_configure_events(*old(s), states@));
}

/// Ack the configure of one state and emit what changed.
fn ack_state(s: &mut SurfaceState, out: &mut Vec<Event<()>>) -> (dest: (i32, i32))
    ensures
        *final(s) == spec_acked(*old(s)),
        final(out)@ == old(out)@ + spec_ack_events(*old(s)),
        dest == spec_viewport_dest(old(s).current_size),
{
    s.pending_ack = None;
    let new_size = s.current_size;
    let scale = s.scale_120;
    let dest = viewport_dest(new_size);
    let emit_resized = new_size != s.last_emitted_size;
    let emit_scale = scale != s.last_emitted_scale_120;
    if emit_resized {
        s.last_emitted_size = new_size;
    }
    if emit_scale {
        s.last_emitted_scale_120 = scale;
    }
    let ghost o = out@;
    if emit_resized {
        out.push(Event::WindowEvent { surface_id: s.id, event: WindowEvent::Resized(new_size) });
    }
    if emit_scale {
        out.push(Event::WindowEvent {
            surface_id: s.id,
            event: WindowEvent::ScaleFactorChanged { scale_120: scale, suggested_size: new_size },
        });
    }
    out.push(Event::WindowEvent { surface_id: s.id, event: WindowEvent::RedrawRequested });
    assert(out@ =~= o + spec_ack_events(*old(s)));
    dest
}


/// Scale of output `oid` as a surface sees it: at least 1, and 1 for an
/// output not (yet) known.
pub open spec fn output_scale_of(outputs: Seq<OutputState>, oid: OutputId) -> int
    decreases outputs.len(),
{
    if outputs.len() == 0 {
        1
    } else if outputs.last().id == oid {
        spec_max(outputs.last().scale as int, 1)
    } else {
        output_scale_of(outputs.drop_last(), oid)
    }
}

/// Largest scale among the outputs a surface overlaps, 1 when none.
pub open spec fn max_touched_scale(touched: Seq<OutputId>, outputs: Seq<OutputState>) -> int
    decreases touched.len(),
{
    if touched.len() == 0 {
        1
    } else {
        spec_max(max_touched_scale(touched.drop_last(), outputs), output_scale_of(outputs, touched.last()))
    }
}

/// The composed scale of a surface, in 1/120 units: the fractional scale
/// when the compositor sent one, otherwise 120 times the largest integer
/// scale of the overlapped outputs (1 when none).
pub open spec fn spec_resolved_scale(s: SurfaceState, outputs: Seq<OutputState>) -> int {
    match s.fractional_scale_120 {
        Some(f) => f as int,
        None => 120 * max_touched_scale(s.touched_outputs@, outputs),
    }
}

/// Every output scale a surface can see is between 1 and `i32::MAX`.
pub proof fn lemma_output_scale_bounds(outputs: Seq<OutputState>, oid: OutputId)
    ensures
        1 <= output_scale_of(outputs, oid) <= i32::MAX,
    decreases outputs.len(),
{
    if outputs.len() > 0 && outputs.last().id != oid {
        lemma_output_scale_bounds(outputs.drop_last(), oid);
    }
}

/// The largest overlapped scale is between 1 and `i32::MAX`.
pub proof fn lemma_max_touched_bounds(touched: Seq<OutputId>, outputs: Seq<OutputState>)
    ensures
        1 <= max_touched_scale(touched, outputs) <= i32::MAX,
    decreases touched.len(),
{
    if touched.len() > 0 {
        lemma_max_touched_bounds(touched.drop_last(), outputs);
        lemma_output_scale_bounds(outputs, touched.last());
    }
}

/// Scale of output `oid` among `outputs`.
fn output_scale(outputs: &Vec<OutputState>, oid: OutputId) -> (r: i32)
    ensures
        r == output_scale_of(outputs@, oid),
        r >= 1,
{
    let n = outputs.len();
    let mut r: i32 = 1;
    let mut i: usize = 0;
    while i < n
        invariant
            n == outputs@.len(),
            i <= n,
            r == output_scale_of(outputs@.take(i as int), oid),
            r >= 1,
        decreases n - i,
    {
        assert(outputs@.take(i + 1).drop_last() =~= outputs@.take(i as int));
        if outputs[i].id == oid {
            r = if outputs[i].scale >= 1 { outputs[i].scale } else { 1 };
        }
        i = i + 1;
    }
    assert(outputs@.take(n as int) =~= outputs@);
    r
}

/// Largest scale among the overlapped outputs.
fn max_touched(touched: &Vec<OutputId>, outputs: &Vec<OutputState>) -> (r: i32)
    ensures
        r == max_touched_scale(touched@, outputs@),
        r >= 1,
{
    let n = touched.len();
    let mut r: i32 = 1;
    let mut i: usize = 0;
    while i < n
        invariant
            n == touched@.len(),
            i <= n,
            r == max_touched_scale(touched@.take(i as int), outputs@),
            r >= 1,
        decreases n - i,
    {
        assert(touched@.take(i + 1).drop_last() =~= touched@.take(i as int));
        let o = output_scale(outputs, touched[i]);
        if o > r {
            r = o;
        }
        i = i + 1;
    }
    assert(touched@.take(n as int) =~= touched@);
    r
}

/// The composed scale of a surface (1/120 units).
pub fn resolved_scale(s: &SurfaceState, outputs: &Vec<OutputState>) -> (r: u64)
    ensures
        r == spec_resolved_scale(*s, outputs@),
{
    match s.fractional_scale_120 {
        Some(f) => f as u64,
        None => {
            let m = max_touched(&s.touched_outputs, outputs);
            120 * (m as u64)
        },
    }
}

/// Whether the surface overlaps output `oid`.
pub open spec fn spec_touches(s: SurfaceState, oid: OutputId) -> bool {
    s.touched_outputs@.contains(oid)
}

/// A surface after its scale is recomputed.
pub open spec fn spec_rescaled(s: SurfaceState, outputs: Seq<OutputState>) -> SurfaceState {
    SurfaceState { scale_120: spec_resolved_scale(s, outputs) as u64, ..s }
}

/// The `ScaleFactorChanged` a recomputation emits, if the scale moved.
pub open spec fn spec_rescale_event(s: SurfaceState, outputs: Seq<OutputState>) -> Seq<Event<()>> {
    if spec_resolved_scale(s, outputs) != s.scale_120 as int {
        seq![wev(s.id, WindowEvent::ScaleFactorChanged {
            scale_120: spec_resolved_scale(s, outputs) as u64,
            suggested_size: s.current_size,
        })]
    } else {
        Seq::empty()
    }
}

/// A surface after output `oid` changed: rescaled when it overlaps it.
pub open spec fn spec_rescale_for(s: SurfaceState, oid: OutputId, outputs: Seq<OutputState>) -> SurfaceState {
    if spec_touches(s, oid) {
        spec_rescaled(s, outputs)
    } else {
        s
    }
}

/// Events of recomputing, in order, the scale of every surface of `ss`
/// that overlaps `oid`.
pub open spec fn spec_rescale_events(ss: Seq<SurfaceState>, oid: OutputId, outputs: Seq<OutputState>) -> Seq<Event<()>>
    decreases ss.len(),
{
    if ss.len() == 0 {
        Seq::empty()
    } else {
        spec_rescale_events(ss.drop_last(), oid, outputs) + (if spec_touches(ss.last(), oid) {
            spec_rescale_event(ss.last(), outputs)
        } else {
            Seq::empty()
        })
    }
}

/// Whether `touched` holds `oid`.
fn touches(touched: &Vec<OutputId>, oid: OutputId) -> (b: bool)
    ensures
        b == touched@.contains(oid),
{
    let n = touched.len();
    let mut i: usize = 0;
    while i < n
        invariant
            n == touched@.len(),
            i <= n,
            forall|j: int| 0 <= j < i ==> touched@[j] != oid,
        decreases n - i,
    {
        if touched[i] == oid {
            assert(touched@[i as int] == oid);
            return true;
        }
        i = i + 1;
    }
    false
}

/// Recompute the scale of one surface, emitting `ScaleFactorChanged`
/// when it moved.
fn rescale_state(s: &mut SurfaceState, outputs: &Vec<OutputState>, out: &mut Vec<Event<()>>)
    ensures
        *final(s) == spec_rescaled(*old(s), outputs@),
        final(out)@ == old(out)@ + spec_rescale_event(*old(s), outputs@),
{
    let new_scale = resolved_scale(s, outputs);
    if new_scale != s.scale_120 {
        s.scale_120 = new_scale;
        out.push(Event::WindowEvent {
            surface_id: s.id,
            event: WindowEvent::ScaleFactorChanged { scale_120: new_scale, suggested_size: s.current_size },
        });
    }
    assert(out@ =~= old(out)@ + spec_rescale_event(*old(s), outputs@));
}

/// Recompute the scale of every surface of `ss` that overlaps `oid`.
fn rescale_list(ss: &mut Vec<SurfaceState>, oid: OutputId, outputs: &Vec<OutputState>, out: &mut Vec<Event<()>>)
    ensures
        final(ss)@ == old(ss)@.map_values(|s: SurfaceState| spec_rescale_for(s, oid, outputs@)),
        final(out)@ == old(out)@ + spec_rescale_events(old(ss)@, oid, outputs@),
{
    let ghost orig = ss@;
    let ghost o0 = out@;
    let n = ss.len();
    let mut i: usize = 0;
    while i < n
        invariant
            n == orig.len(),
            ss@.len() == n,
            i <= n,
            forall|j: int| 0 <= j < i ==> ss@[j] == spec_rescale_for(orig[j], oid, outputs@),
            forall|j: int| i <= j < n ==> ss@[j] == orig[j],
            out@ == o0 + spec_rescale_events(orig.take(i as int), oid, outputs@),
        decreases n - i,
    {
        assert(orig.take(i + 1).drop_last() =~= orig.take(i as int));
        assert(orig.take(i + 1).last() == orig[i as int]);
        let t = touches(&ss[i].touched_outputs, oid);
        if t {
            let mut s = take_surface(ss, i);
            rescale_state(&mut s, outputs, out);
            put_surface(ss, i, s);
        }
        assert(out@ =~= o0 + spec_rescale_events(orig.take(i + 1), oid, outputs@));
        i = i + 1;
    }
    assert(orig.take(n as int) =~= orig);
    assert(ss@ =~= orig.map_values(|s: SurfaceState| spec_rescale_for(s, oid, outputs@)));
}

/// `touched` with `oid` added (kept once).
pub open spec fn spec_touch_insert(t: Seq<OutputId>, oid: OutputId) -> Seq<OutputId> {
    if t.contains(oid) {
        t
    } else {
        t.push(oid)
    }
}

/// `touched` with every occurrence of `oid` removed.
pub open spec fn spec_touch_remove(t: Seq<OutputId>, oid: OutputId) -> Seq<OutputId>
    decreases t.len(),
{
    if t.len() == 0 {
        t
    } else if t.last() == oid {
        spec_touch_remove(t.drop_last(), oid)
    } else {
        spec_touch_remove(t.drop_last(), oid).push(t.last())
    }
}

/// `touched` after a `wl_surface.enter` (`enter`) or `.leave`.
pub open spec fn spec_touch_update(t: Seq<OutputId>, oid: OutputId, enter: bool) -> Seq<OutputId> {
    if enter {
        spec_touch_insert(t, oid)
    } else {
        spec_touch_remove(t, oid)
    }
}

/// `b` is `a` with only the overlapped outputs and the scale changed.
pub open spec fn same_but_touch_and_scale(a: SurfaceState, b: SurfaceState) -> bool {
    &&& b.id == a.id
    &&& b.current_size == a.current_size
    &&& b.preferred_size == a.preferred_size
    &&& b.pending_ack == a.pending_ack
    &&& b.closed == a.closed
    &&& b.activated == a.activated
    &&& b.suspended == a.suspended
    &&& b.last_emitted_size == a.last_emitted_size
    &&& b.last_emitted_scale_120 == a.last_emitted_scale_120
    &&& b.needs_redraw == a.needs_redraw
    &&& b.fractional_scale_120 == a.fractional_scale_120
}

/// `b` is `a` after entering (`enter`) or leaving output `oid`, with its
/// scale recomputed.
pub open spec fn spec_touch_applied(a: SurfaceState, b: SurfaceState, oid: OutputId, enter: bool, outputs: Seq<OutputState>) -> bool {
    &&& same_but_touch_and_scale(a, b)
    &&& b.touched_outputs@ == spec_touch_update(a.touched_outputs@, oid, enter)
    &&& b.scale_120 == spec_resolved_scale(b, outputs)
}

/// The event of entering or leaving an output: `ScaleFactorChanged`
/// when the recomputed scale differs from the old one.
pub open spec fn spec_touch_events(a: SurfaceState, b: SurfaceState) -> Seq<Event<()>> {
    if b.scale_120 != a.scale_120 {
        seq![wev(a.id, WindowEvent::ScaleFactorChanged { scale_120: b.scale_120, suggested_size: a.current_size })]
    } else {
        Seq::empty()
    }
}

/// Remove every occurrence of `oid` from `t`.
fn touch_remove(t: &Vec<OutputId>, oid: OutputId) -> (r: Vec<OutputId>)
    ensures
        r@ == spec_touch_remove(t@, oid),
{
    let n = t.len();
    let mut r: Vec<OutputId> = Vec::new();
    let mut i: usize = 0;
    while i < n
        invariant
            n == t@.len(),
            i <= n,
            r@ == spec_touch_remove(t@.take(i as int), oid),
        decreases n - i,
    {
        assert(t@.take(i + 1).drop_last() =~= t@.take(i as int));
        if t[i] != oid {
            r.push(t[i]);
        }
        i = i + 1;
    }
    assert(t@.take(n as int) =~= t@);
    r
}

/// Enter or leave output `oid` on one surface and recompute its scale.
fn touch_state(s: &mut SurfaceState, oid: OutputId, enter: bool, outputs: &Vec<OutputState>, out: &mut Vec<Event<()>>)
    ensures
        spec_touch_applied(*old(s), *final(s), oid, enter, outputs@),
        final(out)@ == old(out)@ + spec_touch_events(*old(s), *final(s)),
{
    if enter {
        if !touches(&s.touched_outputs, oid) {
            s.touched_outputs.push(oid);
        }
    } else {
        let kept = touch_remove(&s.touched_outputs, oid);
        s.touched_outputs = kept;
    }
    let new_scale = resolved_scale(s, outputs);
    if new_scale != s.scale_120 {
        s.scale_120 = new_scale;
        out.push(Event::WindowEvent {
            surface_id: s.id,
            event: WindowEvent::ScaleFactorChanged { scale_120: new_scale, suggested_size: s.current_size },
        });
    }
    assert(out@ =~= old(out)@ + spec_touch_events(*old(s), *s));
}

/// A surface after the compositor's preferred fractional scale arrived.
pub open spec fn spec_with_fractional(s: SurfaceState, scale: u32) -> SurfaceState {
    SurfaceState { fractional_scale_120: Some(scale), scale_120: scale as u64, ..s }
}

/// The event of a preferred fractional scale: `ScaleFactorChanged` when
/// it differs from the current scale.
pub open spec fn spec_fractional_events(s: SurfaceState, scale: u32) -> Seq<Event<()>> {
    if scale as u64 != s.scale_120 {
        seq![wev(s.id, WindowEvent::ScaleFactorChanged { scale_120: scale as u64, suggested_size: s.current_size })]
    } else {
        Seq::empty()
    }
}

/// Apply a preferred fractional scale to one surface.
fn fractional_state(s: &mut SurfaceState, scale: u32, out: &mut Vec<Event<()>>)
    ensures
        *final(s) == spec_with_fractional(*old(s), scale),
        final(out)@ == old(out)@ + spec_fractional_events(*old(s), scale),
{
    s.fractional_scale_120 = Some(scale);
    let new_scale = scale as u64;
    if new_scale != s.scale_120 {
        s.scale_120 = new_scale;
        out.push(Event::WindowEvent {
            surface_id: s.id,
            event: WindowEvent::ScaleFactorChanged { scale_120: new_scale, suggested_size: s.current_size },
        });
    }
    assert(out@ =~= old(out)@ + spec_fractional_events(*old(s), scale));
}

/// Surfaces of `ss` flagged for redraw, as `RedrawRequested` events in
/// order.
pub open spec fn spec_redraw_events(ss: Seq<SurfaceState>) -> Seq<Event<()>>
    decreases ss.len(),
{
    if ss.len() == 0 {
        Seq::empty()
    } else {
        spec_redraw_events(ss.drop_last()) + (if ss.last().needs_redraw {
            seq![wev(ss.last().id, WindowEvent::RedrawRequested)]
        } else {
            Seq::empty()
        })
    }
}

/// A surface flagged for redraw.
pub open spec fn spec_flag_redraw(s: SurfaceState) -> SurfaceState {
    SurfaceState { needs_redraw: true, ..s }
}

/// The toplevels `tl` and layer surfaces `ls` after the consumer asks
/// surface `sid` to redraw: the toplevel `sid` is flagged, or else the
/// layer surface `sid`.
pub open spec fn spec_after_redraw_request(tl: Seq<SurfaceState>, ls: Seq<SurfaceState>, sid: SurfaceId) -> (Seq<SurfaceState>, Seq<SurfaceState>) {
    (
        update_id(tl, sid, |s: SurfaceState| spec_flag_redraw(s)),
        if has_id(tl, sid) {
            ls
        } else {
            update_id(ls, sid, |s: SurfaceState| spec_flag_redraw(s))
        },
    )
}

/// A surface with its redraw flag served.
pub open spec fn spec_redraw_served(s: SurfaceState) -> SurfaceState {
    SurfaceState { needs_redraw: false, ..s }
}

/// Serve the redraw flags of a list of surfaces.
fn drain_redraw_list(ss: &mut Vec<SurfaceState>, out: &mut Vec<Event<()>>)
    ensures
        final(ss)@ == old(ss)@.map_values(|s: SurfaceState| spec_redraw_served(s)),
        final(out)@ == old(out)@ + spec_redraw_events(old(ss)@),
{
    let ghost orig = ss@;
    let ghost o0 = out@;
    let n = ss.len();
    let mut i: usize = 0;
    while i < n
        invariant
            n == orig.len(),
            ss@.len() == n,
            i <= n,
            forall|j: int| 0 <= j < i ==> ss@[j] == spec_redraw_served(orig[j]),
            forall|j: int| i <= j < n ==> ss@[j] == orig[j],
            out@ == o0 + spec_redraw_events(orig.take(i as int)),
        decreases n - i,
    {
        assert(orig.take(i + 1).drop_last() =~= orig.take(i as int));
        assert(orig.take(i + 1).last() == orig[i as int]);
        if ss[i].needs_redraw {
            let mut s = take_surface(ss, i);
            s.needs_redraw = false;
            let id = s.id;
            put_surface(ss, i, s);
            out.push(Event::WindowEvent { surface_id: id, event: WindowEvent::RedrawRequested });
        }
        assert(out@ =~= o0 + spec_redraw_events(orig.take(i + 1)));
        i = i + 1;
    }
    assert(orig.take(n as int) =~= orig);
    assert(ss@ =~= orig.map_values(|s: SurfaceState| spec_redraw_served(s)));
}


/// The surface at identifier `sid` (meaningful when [`has_id`] holds).
pub open spec fn at_id(ss: Seq<SurfaceState>, sid: SurfaceId) -> SurfaceState {
    ss[index_of_id(ss, sid)]
}

/// Output ids are unique.
pub open spec fn output_ids_unique(os: Seq<OutputState>) -> bool {
    forall|i: int, j: int| 0 <= i < os.len() && 0 <= j < os.len() && i != j ==> os[i].id != os[j].id
}

/// Whether some output of `os` has identifier `oid`.
pub open spec fn has_output(os: Seq<OutputState>, oid: OutputId) -> bool {
    exists|i: int| 0 <= i < os.len() && #[trigger] os[i].id == oid
}

/// The position of output `oid` (meaningful when [`has_output`] holds).
pub open spec fn output_index(os: Seq<OutputState>, oid: OutputId) -> int {
    choose|i: int| 0 <= i < os.len() && #[trigger] os[i].id == oid
}

/// `os` with a fresh entry for `oid` appended when it has none.
pub open spec fn spec_outputs_with(os: Seq<OutputState>, oid: OutputId, fresh: OutputState) -> Seq<OutputState> {
    if has_output(os, oid) {
        os
    } else {
        os.push(fresh)
    }
}

/// An output state after one `wl_output` event.
pub open spec fn spec_output_applied(o: OutputState, ev: OutputEvent) -> OutputState {
    match ev {
        OutputEvent::Geometry { x, y } => OutputState { position: (x, y), ready: false, ..o },
        OutputEvent::Mode { flags, width, height, refresh } => {
            if flags matches Some(f) && f & OUTPUT_MODE_CURRENT != 0 {
                OutputState {
                    physical_size: Size {
                        width: spec_max(width as int, 0) as u32,
                        height: spec_max(height as int, 0) as u32,
                    },
                    refresh_mhz: refresh,
                    ready: false,
                    ..o
                }
            } else {
                o
            }
        },
        OutputEvent::Scale { factor } => OutputState { scale: spec_max(factor as int, 1) as i32, ready: false, ..o },
        OutputEvent::Name { name } => OutputState { name: Some(name), ready: false, ..o },
        OutputEvent::Description { description } => OutputState { description: Some(description), ready: false, ..o },
        OutputEvent::Done => OutputState { ready: true, ..o },
        OutputEvent::Other => o,
    }
}

/// One `wl_output` event applied to the state of its output.
fn apply_output_event(o: OutputState, ev: OutputEvent) -> (r: OutputState)
    ensures
        r == spec_output_applied(o, ev),
{
    let mut o = o;
    match ev {
        OutputEvent::Geometry { x, y } => {
            o.position = (x, y);
            o.ready = false;
        },
        OutputEvent::Mode { flags, width, height, refresh } => {
            let current = match flags {
                Some(f) => f & OUTPUT_MODE_CURRENT != 0,
                None => false,
            };
            if current {
                let w: u32 = if width > 0 { width as u32 } else { 0 };
                let h: u32 = if height > 0 { height as u32 } else { 0 };
                o.physical_size = Size { width: w, height: h };
                o.refresh_mhz = refresh;
                o.ready = false;
            }
        },
        OutputEvent::Scale { factor } => {
            o.scale = if factor >= 1 { factor } else { 1 };
            o.ready = false;
        },
        OutputEvent::Name { name } => {
            o.name = Some(name);
            o.ready = false;
        },
        OutputEvent::Description { description } => {
            o.description = Some(description);
            o.ready = false;
        },
        OutputEvent::Done => {
            o.ready = true;
        },
        OutputEvent::Other => {},
    }
    o
}

/// The toplevel and layer surfaces of one client, and the outputs they
/// can overlap.
pub struct Surfaces {
    /// Toplevel surfaces, in creation order.
    pub toplevels: Vec<SurfaceState>,
    /// Layer surfaces, in creation order.
    pub layer_surfaces: Vec<SurfaceState>,
    /// Known outputs, in the order first seen.
    pub outputs: Vec<OutputState>,
    /// Last surface identifier handed out (0 = none yet).
    pub next_surface_id: u64,
    /// Last output identifier handed out (0 = none yet).
    pub next_output_id: u64,
}

impl Surfaces {
    /// Identifiers are unique within each kind, and among outputs.
    pub open spec fn wf(&self) -> bool {
        &&& ids_unique(self.toplevels@)
        &&& ids_unique(self.layer_surfaces@)
        &&& output_ids_unique(self.outputs@)
    }

    /// No surface, no output.
    pub fn new() -> (s: Surfaces)
        ensures
            s.wf(),
            s.toplevels@.len() == 0,
            s.layer_surfaces@.len() == 0,
            s.outputs@.len() == 0,
            s.next_surface_id == 0,
            s.next_output_id == 0,
    {
        Surfaces {
            toplevels: Vec::new(),
            layer_surfaces: Vec::new(),
            outputs: Vec::new(),
            next_surface_id: 0,
            next_output_id: 0,
        }
    }

    /// Hand out the next surface identifier.
    pub fn alloc_surface_id(&mut self) -> (id: SurfaceId)
        requires
            old(self).next_surface_id < u64::MAX,
        ensures
            final(self).next_surface_id == old(self).next_surface_id + 1,
            id.raw() == final(self).next_surface_id,
            final(self).toplevels == old(self).toplevels,
            final(self).layer_surfaces == old(self).layer_surfaces,
            final(self).outputs == old(self).outputs,
            final(self).next_output_id == old(self).next_output_id,
    {
        self.next_surface_id = self.next_surface_id + 1;
        match SurfaceId::from_raw(self.next_surface_id) {
            Some(id) => id,
            None => {
                assert(false);
                SurfaceId::from_raw(1).unwrap()
            },
        }
    }

    /// Hand out the next output identifier (wrapping after `u64::MAX`).
    pub fn alloc_output_id(&mut self) -> (id: OutputId)
        ensures
            final(self).next_output_id == (if old(self).next_output_id == u64::MAX { 0 } else { old(self).next_output_id + 1 }),
            id.0 == final(self).next_output_id,
            final(self).toplevels == old(self).toplevels,
            final(self).layer_surfaces == old(self).layer_surfaces,
            final(self).outputs == old(self).outputs,
            final(self).next_surface_id == old(self).next_surface_id,
    {
        self.next_output_id = if self.next_output_id == u64::MAX { 0 } else { self.next_output_id + 1 };
        OutputId(self.next_output_id)
    }

    /// Record the state of a new toplevel, replacing any state already
    /// held under its identifier.
    pub fn register_toplevel(&mut self, st: SurfaceState)
        requires
            old(self).wf(),
        ensures
            final(self).wf(),
            final(self).toplevels@ == (if has_id(old(self).toplevels@, st.id) {
                old(self).toplevels@.update(index_of_id(old(self).toplevels@, st.id), st)
            } else {
                old(self).toplevels@.push(st)
            }),
            final(self).layer_surfaces == old(self).layer_surfaces,
            final(self).outputs == old(self).outputs,
            final(self).next_surface_id == old(self).next_surface_id,
            final(self).next_output_id == old(self).next_output_id,
    {
        match find_surface(&self.toplevels, st.id) {
            Some(i) => {
                put_surface(&mut self.toplevels, i, st);
            },
            None => {
                self.toplevels.push(st);
            },
        }
    }

    /// Record the state of a new layer surface, replacing any state
    /// already held under its identifier.
    pub fn register_layer_surface(&mut self, st: SurfaceState)
        requires
            old(self).wf(),
        ensures
            final(self).wf(),
            final(self).layer_surfaces@ == (if has_id(old(self).layer_surfaces@, st.id) {
                old(self).layer_surfaces@.update(index_of_id(old(self).layer_surfaces@, st.id), st)
            } else {
                old(self).layer_surfaces@.push(st)
            }),
            final(self).toplevels == old(self).toplevels,
            final(self).outputs == old(self).outputs,
            final(self).next_surface_id == old(self).next_surface_id,
            final(self).next_output_id == old(self).next_output_id,
    {
        match find_surface(&self.layer_surfaces, st.id) {
            Some(i) => {
                put_surface(&mut self.layer_surfaces, i, st);
            },
            None => {
                self.layer_surfaces.push(st);
            },
        }
    }

    /// `xdg_toplevel.configure`: choose the new size and record the
    /// activated / suspended bits; a flip of the suspended bit emits
    /// `Occluded`.
    pub fn toplevel_configure(&mut self, sid: SurfaceId, width: i32, height: i32, states: &[u32], out: &mut Vec<Event<()>>)
        requires
            old(self).wf(),
        ensures
            final(self).wf(),
            final(self).toplevels@ == update_id(old(self).toplevels@, sid,
                |s: SurfaceState| spec_toplevel_configured(s, width, height, states@)),
            final(out)@ == old(out)@ + (if has_id(old(self).toplevels@, sid) {
                spec_toplevel_configure_events(at_id(old(self).toplevels@, sid), states@)
            } else {
                Seq::empty()
            }),
            final(self).layer_surfaces == old(self).layer_surfaces,
            final(self).outputs == old(self).outputs,
            final(self).next_surface_id == old(self).next_surface_id,
            final(self).next_output_id == old(self).next_output_id,
    {
        if let Some(i) = find_surface(&self.toplevels, sid) {
            let ghost before = self.toplevels@;
            let mut s = take_surface(&mut self.toplevels, i);
            configure_toplevel_state(&mut s, width, height, states, out);
            put_surface(&mut self.toplevels, i, s);
            assert(self.toplevels@ =~= before.update(i as int, spec_toplevel_configured(before[i as int], width, height, states@)));
        }
    }

    /// `xdg_surface.configure` of a toplevel: the configure is acked; the
    /// new size is reported by `Resized` only when it differs from the
    /// last reported one, the scale by `ScaleFactorChanged` only when it
    /// moved, and `RedrawRequested` always follows. Returns the viewport
    /// destination to apply, or `None` (nothing to ack) for an unknown
    /// surface.
    pub fn toplevel_ack(&mut self, sid: SurfaceId, out: &mut Vec<Event<()>>) -> (dest: Option<(i32, i32)>)
        requires
            old(self).wf(),
        ensures
            final(self).wf(),
            dest is Some <==> has_id(old(self).toplevels@, sid),
            dest matches Some(d) ==> d == spec_viewport_dest(at_id(old(self).toplevels@, sid).current_size),
            final(self).toplevels@ == update_id(old(self).toplevels@, sid, |s: SurfaceState| spec_acked(s)),
            final(out)@ == old(out)@ + (if has_id(old(self).toplevels@, sid) {
                spec_ack_events(at_id(old(self).toplevels@, sid))
            } else {
                Seq::empty()
            }),
            final(self).layer_surfaces == old(self).layer_surfaces,
            final(self).outputs == old(self).outputs,
            final(self).next_surface_id == old(self).next_surface_id,
            final(self).next_output_id == old(self).next_output_id,
    {
        match find_surface(&self.toplevels, sid) {
            Some(i) => {
                let ghost before = self.toplevels@;
                let mut s = take_surface(&mut self.toplevels, i);
                let d = ack_state(&mut s, out);
                put_surface(&mut self.toplevels, i, s);
                assert(self.toplevels@ =~= before.update(i as int, spec_acked(before[i as int])));
                Some(d)
            },
            None => None,
        }
    }

    /// `xdg_toplevel.close`: the compositor asks the consumer to close.
    pub fn toplevel_close(&self, sid: SurfaceId, out: &mut Vec<Event<()>>)
        ensures
            final(out)@ == old(out)@.push(wev(sid, WindowEvent::CloseRequested)),
    {
        out.push(Event::WindowEvent { surface_id: sid, event: WindowEvent::CloseRequested });
    }

    /// `zwlr_layer_surface_v1.configure`: choose the new size, ack, and
    /// report as for toplevels. Returns the viewport destination, or
    /// `None` (nothing to ack) for an unknown surface.
    pub fn layer_configure(&mut self, sid: SurfaceId, width: u32, height: u32, out: &mut Vec<Event<()>>) -> (dest: Option<(i32, i32)>)
        requires
            old(self).wf(),
        ensures
            final(self).wf(),
            dest is Some <==> has_id(old(self).layer_surfaces@, sid),
            dest matches Some(d) ==> d == spec_viewport_dest(
                spec_layer_configured(at_id(old(self).layer_surfaces@, sid), width, height).current_size),
            final(self).layer_surfaces@ == update_id(old(self).layer_surfaces@, sid,
                |s: SurfaceState| spec_acked(spec_layer_configured(s, width, height))),
            final(out)@ == old(out)@ + (if has_id(old(self).layer_surfaces@, sid) {
                spec_ack_events(spec_layer_configured(at_id(old(self).layer_surfaces@, sid), width, height))
            } else {
                Seq::empty()
            }),
            final(self).toplevels == old(self).toplevels,
            final(self).outputs == old(self).outputs,
            final(self).next_surface_id == old(self).next_surface_id,
            final(self).next_output_id == old(self).next_output_id,
    {
        match find_surface(&self.layer_surfaces, sid) {
            Some(i) => {
                let ghost before = self.layer_surfaces@;
                let mut s = take_surface(&mut self.layer_surfaces, i);
                let w: u32 = if width > 0 {
                    width
                } else if s.current_size.width > 0 {
                    s.current_size.width
                } else {
                    s.preferred_size.width
                };
                let h: u32 = if height > 0 {
                    height
                } else if s.current_size.height > 0 {
                    s.current_size.height
                } else {
                    s.preferred_size.height
                };
                s.current_size = Size { width: w, height: h };
                assert(s == spec_layer_configured(before[i as int], width, height));
                let d = ack_state(&mut s, out);
                put_surface(&mut self.layer_surfaces, i, s);
                assert(self.layer_surfaces@ =~= before.update(i as int,
                    spec_acked(spec_layer_configured(before[i as int], width, height))));
                Some(d)
            },
            None => None,
        }
    }

    /// `zwlr_layer_surface_v1.closed`: mark the surface closed and ask the
    /// consumer to close it.
    pub fn layer_closed(&mut self, sid: SurfaceId, out: &mut Vec<Event<()>>)
        requires
            old(self).wf(),
        ensures
            final(self).wf(),
            final(self).layer_surfaces@ == update_id(old(self).layer_surfaces@, sid,
                |s: SurfaceState| SurfaceState { closed: true, ..s }),
            final(out)@ == old(out)@.push(wev(sid, WindowEvent::CloseRequested)),
            final(self).toplevels == old(self).toplevels,
            final(self).outputs == old(self).outputs,
            final(self).next_surface_id == old(self).next_surface_id,
            final(self).next_output_id == old(self).next_output_id,
    {
        if let Some(i) = find_surface(&self.layer_surfaces, sid) {
            let ghost before = self.layer_surfaces@;
            let mut s = take_surface(&mut self.layer_surfaces, i);
            s.closed = true;
            put_surface(&mut self.layer_surfaces, i, s);
            assert(self.layer_surfaces@ =~= before.update(i as int, SurfaceState { closed: true, ..before[i as int] }));
        }
        out.push(Event::WindowEvent { surface_id: sid, event: WindowEvent::CloseRequested });
    }

    /// Flag a toplevel (or else a layer surface) for redraw on the next
    /// run-loop iteration.
    pub fn request_redraw(&mut self, sid: SurfaceId)
        requires
            old(self).wf(),
        ensures
            final(self).wf(),
            (final(self).toplevels@, final(self).layer_surfaces@)
                == spec_after_redraw_request(old(self).toplevels@, old(self).layer_surfaces@, sid),
            final(self).outputs == old(self).outputs,
            final(self).next_surface_id == old(self).next_surface_id,
            final(self).next_output_id == old(self).next_output_id,
    {
        if let Some(i) = find_surface(&self.toplevels, sid) {
            let ghost before = self.toplevels@;
            let mut s = take_surface(&mut self.toplevels, i);
            s.needs_redraw = true;
            put_surface(&mut self.toplevels, i, s);
            assert(self.toplevels@ =~= before.update(i as int, SurfaceState { needs_redraw: true, ..before[i as int] }));
            return;
        }
        if let Some(i) = find_surface(&self.layer_surfaces, sid) {
            let ghost before = self.layer_surfaces@;
            let mut s = take_surface(&mut self.layer_surfaces, i);
            s.needs_redraw = true;
            put_surface(&mut self.layer_surfaces, i, s);
            assert(self.layer_surfaces@ =~= before.update(i as int, SurfaceState { needs_redraw: true, ..before[i as int] }));
        }
    }

    /// The consumer asks to close a toplevel: it is marked closed and the
    /// usual close flow starts with a `CloseRequested` for it (nothing
    /// happens for an unknown surface).
    pub fn request_close(&mut self, sid: SurfaceId, out: &mut Vec<Event<()>>)
        requires
            old(self).wf(),
        ensures
            final(self).wf(),
            final(self).toplevels@ == update_id(old(self).toplevels@, sid,
                |s: SurfaceState| SurfaceState { closed: true, ..s }),
            final(out)@ == old(out)@ + (if has_id(old(self).toplevels@, sid) {
                seq![wev(sid, WindowEvent::CloseRequested)]
            } else {
                Seq::<Event<()>>::empty()
            }),
            final(self).layer_surfaces == old(self).layer_surfaces,
            final(self).outputs == old(self).outputs,
            final(self).next_surface_id == old(self).next_surface_id,
            final(self).next_output_id == old(self).next_output_id,
    {
        if let Some(i) = find_surface(&self.toplevels, sid) {
            let ghost before = self.toplevels@;
            let mut s = take_surface(&mut self.toplevels, i);
            s.closed = true;
            put_surface(&mut self.toplevels, i, s);
            assert(self.toplevels@ =~= before.update(i as int, SurfaceState { closed: true, ..before[i as int] }));
            out.push(Event::WindowEvent { surface_id: sid, event: WindowEvent::CloseRequested });
        }
        assert(out@ =~= old(out)@ + (if has_id(old(self).toplevels@, sid) {
            seq![wev(sid, WindowEvent::CloseRequested)]
        } else {
            Seq::<Event<()>>::empty()
        }));
    }

    /// Serve every pending redraw flag: one `RedrawRequested` per flagged
    /// surface (toplevels first, then layer surfaces), however many
    /// requests were made, and every flag cleared.
    pub fn drain_redraw_requests(&mut self, out: &mut Vec<Event<()>>)
        requires
            old(self).wf(),
        ensures
            final(self).wf(),
            final(self).toplevels@ == old(self).toplevels@.map_values(|s: SurfaceState| spec_redraw_served(s)),
            final(self).layer_surfaces@ == old(self).layer_surfaces@.map_values(|s: SurfaceState| spec_redraw_served(s)),
            final(out)@ == old(out)@ + spec_redraw_events(old(self).toplevels@) + spec_redraw_events(old(self).layer_surfaces@),
            final(self).outputs == old(self).outputs,
            final(self).next_surface_id == old(self).next_surface_id,
            final(self).next_output_id == old(self).next_output_id,
    {
        drain_redraw_list(&mut self.toplevels, out);
        drain_redraw_list(&mut self.layer_surfaces, out);
        assert(ids_unique(self.toplevels@));
    }

    /// `wl_surface.enter` (`enter`) or `.leave` of output `oid`: update
    /// the overlapped outputs of the toplevel (or else the layer surface)
    /// `sid` and recompute its scale, emitting `ScaleFactorChanged` when it
    /// moved.
    pub fn update_touched_outputs(&mut self, sid: SurfaceId, oid: OutputId, enter: bool, out: &mut Vec<Event<()>>)
        requires
            old(self).wf(),
        ensures
            final(self).wf(),
            final(self).outputs == old(self).outputs,
            final(self).next_surface_id == old(self).next_surface_id,
            final(self).next_output_id == old(self).next_output_id,
            has_id(old(self).toplevels@, sid) ==> {
                let i = index_of_id(old(self).toplevels@, sid);
                &&& final(self).toplevels@.len() == old(self).toplevels@.len()
                &&& forall|j: int| 0 <= j < old(self).toplevels@.len() && j != i ==> final(self).toplevels@[j] == old(self).toplevels@[j]
                &&& spec_touch_applied(old(self).toplevels@[i], final(self).toplevels@[i], oid, enter, old(self).outputs@)
                &&& final(out)@ == old(out)@ + spec_touch_events(old(self).toplevels@[i], final(self).toplevels@[i])
                &&& final(self).layer_surfaces == old(self).layer_surfaces
            },
            !has_id(old(self).toplevels@, sid) && has_id(old(self).layer_surfaces@, sid) ==> {
                let i = index_of_id(old(self).layer_surfaces@, sid);
                &&& final(self).layer_surfaces@.len() == old(self).layer_surfaces@.len()
                &&& forall|j: int| 0 <= j < old(self).layer_surfaces@.len() && j != i ==> final(self).layer_surfaces@[j] == old(self).layer_surfaces@[j]
                &&& spec_touch_applied(old(self).layer_surfaces@[i], final(self).layer_surfaces@[i], oid, enter, old(self).outputs@)
                &&& final(out)@ == old(out)@ + spec_touch_events(old(self).layer_surfaces@[i], final(self).layer_surfaces@[i])
                &&& final(self).toplevels == old(self).toplevels
            },
            !has_id(old(self).toplevels@, sid) && !has_id(old(self).layer_surfaces@, sid) ==> {
                &&& final(self).toplevels == old(self).toplevels
                &&& final(self).layer_surfaces == old(self).layer_surfaces
                &&& final(out)@ == old(out)@
            },
    {
        if let Some(i) = find_surface(&self.toplevels, sid) {
            let mut s = take_surface(&mut self.toplevels, i);
            touch_state(&mut s, oid, enter, &self.outputs, out);
            put_surface(&mut self.toplevels, i, s);
            return;
        }
        if let Some(i) = find_surface(&self.layer_surfaces, sid) {
            let mut s = take_surface(&mut self.layer_surfaces, i);
            touch_state(&mut s, oid, enter, &self.outputs, out);
            put_surface(&mut self.layer_surfaces, i, s);
        }
    }

    /// `wp_fractional_scale_v1.preferred_scale` (1/120 units) for the
    /// toplevel (or else the layer surface) `sid`: the fractional scale
    /// takes over, and `ScaleFactorChanged` reports it when it differs
    /// from the current scale.
    pub fn fractional_scale(&mut self, sid: SurfaceId, scale: u32, out: &mut Vec<Event<()>>)
        requires
            old(self).wf(),
        ensures
            final(self).wf(),
            final(self).toplevels@ == update_id(old(self).toplevels@, sid,
                |s: SurfaceState| spec_with_fractional(s, scale)),
            final(self).layer_surfaces@ == (if has_id(old(self).toplevels@, sid) {
                old(self).layer_surfaces@
            } else {
                update_id(old(self).layer_surfaces@, sid, |s: SurfaceState| spec_with_fractional(s, scale))
            }),
            final(out)@ == old(out)@ + (if has_id(old(self).toplevels@, sid) {
                spec_fractional_events(at_id(old(self).toplevels@, sid), scale)
            } else if has_id(old(self).layer_surfaces@, sid) {
                spec_fractional_events(at_id(old(self).layer_surfaces@, sid), scale)
            } else {
                Seq::empty()
            }),
            final(self).outputs == old(self).outputs,
            final(self).next_surface_id == old(self).next_surface_id,
            final(self).next_output_id == old(self).next_output_id,
    {
        if let Some(i) = find_surface(&self.toplevels, sid) {
            let ghost before = self.toplevels@;
            let mut s = take_surface(&mut self.toplevels, i);
            fractional_state(&mut s, scale, out);
            put_surface(&mut self.toplevels, i, s);
            assert(self.toplevels@ =~= before.update(i as int, spec_with_fractional(before[i as int], scale)));
            return;
        }
        if let Some(i) = find_surface(&self.layer_surfaces, sid) {
            let ghost before = self.layer_surfaces@;
            let mut s = take_surface(&mut self.layer_surfaces, i);
            fractional_state(&mut s, scale, out);
            put_surface(&mut self.layer_surfaces, i, s);
            assert(self.layer_surfaces@ =~= before.update(i as int, spec_with_fractional(before[i as int], scale)));
        }
    }

    /// Recompute the scale of every surface overlapping output `oid`
    /// (toplevels first, then layer surfaces), emitting
    /// `ScaleFactorChanged` for each whose scale moved.
    pub fn recompute_scale_for_output(&mut self, oid: OutputId, out: &mut Vec<Event<()>>)
        requires
            old(self).wf(),
        ensures
            final(self).wf(),
            final(self).toplevels@ == old(self).toplevels@.map_values(
                |s: SurfaceState| spec_rescale_for(s, oid, old(self).outputs@)),
            final(self).layer_surfaces@ == old(self).layer_surfaces@.map_values(
                |s: SurfaceState| spec_rescale_for(s, oid, old(self).outputs@)),
            final(out)@ == old(out)@ + spec_rescale_events(old(self).toplevels@, oid, old(self).outputs@)
                + spec_rescale_events(old(self).layer_surfaces@, oid, old(self).outputs@),
            final(self).outputs == old(self).outputs,
            final(self).next_surface_id == old(self).next_surface_id,
            final(self).next_output_id == old(self).next_output_id,
    {
        rescale_list(&mut self.toplevels, oid, &self.outputs, out);
        rescale_list(&mut self.layer_surfaces, oid, &self.outputs, out);
        assert(ids_unique(self.toplevels@));
    }

    /// Position of output `oid`.
    fn find_output(&self, oid: OutputId) -> (r: Option<usize>)
        requires
            self.wf(),
        ensures
            r is None <==> !has_output(self.outputs@, oid),
            r matches Some(i) ==> i < self.outputs@.len() && self.outputs@[i as int].id == oid
                && output_index(self.outputs@, oid) == i,
    {
        let n = self.outputs.len();
        let mut i: usize = 0;
        while i < n
            invariant
                n == self.outputs@.len(),
                i <= n,
                output_ids_unique(self.outputs@),
                forall|j: int| 0 <= j < i ==> self.outputs@[j].id != oid,
            decreases n - i,
        {
            if self.outputs[i].id == oid {
                let ghost k = output_index(self.outputs@, oid);
                assert(self.outputs@[i as int].id == oid);
                assert(0 <= k < self.outputs@.len() && self.outputs@[k].id == oid);
                return Some(i);
            }
            i = i + 1;
        }
        None
    }

    /// A `wl_output` event for the output known as `known` (`None` for an
    /// output seen for the first time, which gets a fresh identifier and
    /// a state with scale 1). Staged changes mark the output not ready;
    /// `done` marks it ready and recomputes the scale of every surface
    /// overlapping it. Returns the output's identifier.
    pub fn output_event(&mut self, known: Option<OutputId>, ev: OutputEvent, out: &mut Vec<Event<()>>) -> (id: OutputId)
        requires
            old(self).wf(),
        ensures
            final(self).wf(),
            known matches Some(k) ==> id == k && final(self).next_output_id == old(self).next_output_id,
            known is None ==> id.0 == (if old(self).next_output_id == u64::MAX { 0 } else { old(self).next_output_id + 1 })
                && final(self).next_output_id == id.0,
            ({
                let staged = spec_outputs_with(old(self).outputs@, id, OutputState::spec_fresh(id));
                let i = output_index(staged, id);
                &&& has_output(staged, id)
                &&& final(self).outputs@ == staged.update(i, spec_output_applied(staged[i], ev))
            }),
            !(ev is Done) ==> {
                &&& final(self).toplevels == old(self).toplevels
                &&& final(self).layer_surfaces == old(self).layer_surfaces
                &&& final(out)@ == old(out)@
            },
            ev is Done ==> {
                &&& final(self).toplevels@ == old(self).toplevels@.map_values(
                    |s: SurfaceState| spec_rescale_for(s, id, final(self).outputs@))
                &&& final(self).layer_surfaces@ == old(self).layer_surfaces@.map_values(
                    |s: SurfaceState| spec_rescale_for(s, id, final(self).outputs@))
                &&& final(out)@ == old(out)@ + spec_rescale_events(old(self).toplevels@, id, final(self).outputs@)
                    + spec_rescale_events(old(self).layer_surfaces@, id, final(self).outputs@)
            },
            final(self).next_surface_id == old(self).next_surface_id,
    {
        let id = match known {
            Some(k) => k,
            None => self.alloc_output_id(),
        };
        let ghost o0 = self.outputs@;
        if self.find_output(id).is_none() {
            self.outputs.push(OutputState::fresh(id));
            proof {
                let n = o0.len();
                assert(self.outputs@[n as int].id == id);
                assert(has_output(self.outputs@, id));
            }
        }
        let ghost staged = self.outputs@;
        assert(staged == spec_outputs_with(o0, id, OutputState::spec_fresh(id)));
        let i = match self.find_output(id) {
            Some(i) => i,
            None => {
                assert(false);
                0
            },
        };
        let is_done = match ev {
            OutputEvent::Done => true,
            _ => false,
        };
        let o_old = self.outputs.remove(i);
        let o = apply_output_event(o_old, ev);
        self.outputs.insert(i, o);
        assert(self.outputs@ =~= staged.update(i as int, spec_output_applied(staged[i as int], ev)));
        assert(output_ids_unique(self.outputs@));
        if is_done {
            self.recompute_scale_for_output(id, out);
        }
        id
    }

    /// `wl_surface.enter` of the output known as `known` (`None` for an
    /// output not seen yet, which gets a fresh identifier and a state
    /// with scale 1). Returns the output's identifier.
    pub fn surface_enter(&mut self, sid: SurfaceId, known: Option<OutputId>, out: &mut Vec<Event<()>>) -> (id: OutputId)
        requires
            old(self).wf(),
        ensures
            final(self).wf(),
            known matches Some(k) ==> id == k && final(self).outputs == old(self).outputs
                && final(self).next_output_id == old(self).next_output_id,
            known is None ==> id.0 == (if old(self).next_output_id == u64::MAX { 0 } else { old(self).next_output_id + 1 })
                && final(self).next_output_id == id.0
                && final(self).outputs@ == spec_outputs_with(old(self).outputs@, id, OutputState::spec_fresh(id)),
            has_id(old(self).toplevels@, sid) ==> {
                let i = index_of_id(old(self).toplevels@, sid);
                &&& final(self).toplevels@.len() == old(self).toplevels@.len()
                &&& forall|j: int| 0 <= j < old(self).toplevels@.len() && j != i ==> final(self).toplevels@[j] == old(self).toplevels@[j]
                &&& spec_touch_applied(old(self).toplevels@[i], final(self).toplevels@[i], id, true, final(self).outputs@)
                &&& final(out)@ == old(out)@ + spec_touch_events(old(self).toplevels@[i], final(self).toplevels@[i])
                &&& final(self).layer_surfaces == old(self).layer_surfaces
            },
            !has_id(old(self).toplevels@, sid) && has_id(old(self).layer_surfaces@, sid) ==> {
                let i = index_of_id(old(self).layer_surfaces@, sid);
                &&& final(self).layer_surfaces@.len() == old(self).layer_surfaces@.len()
                &&& forall|j: int| 0 <= j < old(self).layer_surfaces@.len() && j != i ==> final(self).layer_surfaces@[j] == old(self).layer_surfaces@[j]
                &&& spec_touch_applied(old(self).layer_surfaces@[i], final(self).layer_surfaces@[i], id, true, final(self).outputs@)
                &&& final(out)@ == old(out)@ + spec_touch_events(old(self).layer_surfaces@[i], final(self).layer_surfaces@[i])
                &&& final(self).toplevels == old(self).toplevels
            },
            !has_id(old(self).toplevels@, sid) && !has_id(old(self).layer_surfaces@, sid) ==> {
                &&& final(self).toplevels == old(self).toplevels
                &&& final(self).layer_surfaces == old(self).layer_surfaces
                &&& final(out)@ == old(out)@
            },
            final(self).next_surface_id == old(self).next_surface_id,
    {
        let id = match known {
            Some(k) => k,
            None => {
                let fresh = self.alloc_output_id();
                if self.find_output(fresh).is_none() {
                    self.outputs.push(OutputState::fresh(fresh));
                    proof {
                        let n = self.outputs@.len() - 1;
                        assert(self.outputs@[n as int].id == fresh);
                    }
                }
                fresh
            },
        };
        self.update_touched_outputs(sid, id, true, out);
        id
    }

    /// `wl_surface.leave` of the output known as `known` (nothing happens
    /// for an output never seen).
    pub fn surface_leave(&mut self, sid: SurfaceId, known: Option<OutputId>, out: &mut Vec<Event<()>>)
        requires
            old(self).wf(),
        ensures
            final(self).wf(),
            final(self).outputs == old(self).outputs,
            final(self).next_surface_id == old(self).next_surface_id,
            final(self).next_output_id == old(self).next_output_id,
            known is None ==> {
                &&& final(self).toplevels == old(self).toplevels
                &&& final(self).layer_surfaces == old(self).layer_surfaces
                &&& final(out)@ == old(out)@
            },
            known is Some && has_id(old(self).toplevels@, sid) ==> {
                let i = index_of_id(old(self).toplevels@, sid);
                let oid = known->0;
                &&& final(self).toplevels@.len() == old(self).toplevels@.len()
                &&& forall|j: int| 0 <= j < old(self).toplevels@.len() && j != i ==> final(self).toplevels@[j] == old(self).toplevels@[j]
                &&& spec_touch_applied(old(self).toplevels@[i], final(self).toplevels@[i], oid, false, old(self).outputs@)
                &&& final(out)@ == old(out)@ + spec_touch_events(old(self).toplevels@[i], final(self).toplevels@[i])
                &&& final(self).layer_surfaces == old(self).layer_surfaces
            },
            known is Some && !has_id(old(self).toplevels@, sid) && has_id(old(self).layer_surfaces@, sid) ==> {
                let i = index_of_id(old(self).layer_surfaces@, sid);
                let oid = known->0;
                &&& final(self).layer_surfaces@.len() == old(self).layer_surfaces@.len()
                &&& forall|j: int| 0 <= j < old(self).layer_surfaces@.len() && j != i ==> final(self).layer_surfaces@[j] == old(self).layer_surfaces@[j]
                &&& spec_touch_applied(old(self).layer_surfaces@[i], final(self).layer_surfaces@[i], oid, false, old(self).outputs@)
                &&& final(out)@ == old(out)@ + spec_touch_events(old(self).layer_surfaces@[i], final(self).layer_surfaces@[i])
                &&& final(self).toplevels == old(self).toplevels
            },
            known is Some && !has_id(old(self).toplevels@, sid) && !has_id(old(self).layer_surfaces@, sid) ==> {
                &&& final(self).toplevels == old(self).toplevels
                &&& final(self).layer_surfaces == old(self).layer_surfaces
                &&& final(out)@ == old(out)@
            },
    {
        if let Some(oid) = known {
            self.update_touched_outputs(sid, oid, false, out);
        }
    }

    /// Snapshot of every known output, in the order first seen.
    pub fn outputs_snapshot(&self) -> (r: Vec<OutputInfo>)
        ensures
            r@.len() == self.outputs@.len(),
            forall|i: int| 0 <= i < r@.len() ==> spec_snapshot(self.outputs@[i], #[trigger] r@[i]),
    {
        let n = self.outputs.len();
        let mut r: Vec<OutputInfo> = Vec::new();
        let mut i: usize = 0;
        while i < n
            invariant
                n == self.outputs@.len(),
                i <= n,
                r@.len() == i,
                forall|j: int| 0 <= j < i ==> spec_snapshot(self.outputs@[j], #[trigger] r@[j]),
            decreases n - i,
        {
            let info = self.outputs[i].snapshot();
            r.push(info);
            i = i + 1;
        }
        r
    }

    /// The state of the toplevel (or else the layer surface) `sid`.
    pub fn get(&self, sid: SurfaceId) -> (r: Option<&SurfaceState>)
        requires
            self.wf(),
        ensures
            has_id(self.toplevels@, sid) ==> (r matches Some(s) && *s == at_id(self.toplevels@, sid)),
            !has_id(self.toplevels@, sid) && has_id(self.layer_surfaces@, sid)
                ==> (r matches Some(s) && *s == at_id(self.layer_surfaces@, sid)),
            !has_id(self.toplevels@, sid) && !has_id(self.layer_surfaces@, sid) ==> r is None,
    {
        if let Some(i) = find_surface(&self.toplevels, sid) {
            return Some(&self.toplevels[i]);
        }
        if let Some(i) = find_surface(&self.layer_surfaces, sid) {
            return Some(&self.layer_surfaces[i]);
        }
        None
    }
}

/// One axis of the physical buffer size: the logical length times the
/// scale, rounded up, and capped at `u32::MAX`.
pub open spec fn spec_physical_dim(d: u32, scale_120: u64) -> int {
    let v = (d as int * scale_120 as int + 119) / 120;
    if v > u32::MAX as int {
        u32::MAX as int
    } else {
        v
    }
}

/// One axis of the physical buffer size.
fn physical_dim(d: u32, scale_120: u64) -> (r: u32)
    ensures
        r == spec_physical_dim(d, scale_120),
{
    let s: u128 = scale_120 as u128;
    let dd: u128 = d as u128;
    assert(dd * s <= 0xffff_ffffu128 * 0xffff_ffff_ffff_ffffu128) by (nonlinear_arith)
        requires
            dd <= 0xffff_ffffu128,
            s <= 0xffff_ffff_ffff_ffffu128,
    ;
    let v: u128 = (dd * s + 119) / 120;
    if v > 0xffff_ffff {
        u32::MAX
    } else {
        v as u32
    }
}

/// Physical buffer size to render at for a logical size at a scale
/// (1/120 units): each axis is the logical length times the scale,
/// rounded up.
pub fn physical_size(logical: Size, scale_120: u64) -> (r: Size)
    ensures
        r.width == spec_physical_dim(logical.width, scale_120),
        r.height == spec_physical_dim(logical.height, scale_120),
{
    Size { width: physical_dim(logical.width, scale_120), height: physical_dim(logical.height, scale_120) }
}

} // verus!
