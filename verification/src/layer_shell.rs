//! Layer-shell (`zwlr_layer_shell_v1`) anchored surfaces: options,
//! protocol values and construction.
use vstd::prelude::*;
use vstd::string::*;
use wayland_protocols_wlr::layer_shell::v1::client::zwlr_layer_shell_v1::Layer as WlLayer;
use wayland_protocols_wlr::layer_shell::v1::client::zwlr_layer_surface_v1::{
    Anchor as WlAnchor, KeyboardInteractivity as WlKeyboardInteractivity,
};
use crate::geometry::Size;
use crate::surface::SurfaceId;
use crate::surfaces::{SurfaceState, spec_fresh_surface};

verus! {

/// The protocol's layer enum, carried opaquely.
#[verifier::external_type_specification]
#[verifier::external_body]
pub struct ExWlLayer(WlLayer);

/// The protocol's anchor bitfield, carried opaquely.
#[verifier::external_type_specification]
#[verifier::external_body]
pub struct ExWlAnchor(WlAnchor);

/// The protocol's keyboard-interactivity enum, carried opaquely.
#[verifier::external_type_specification]
#[verifier::external_body]
pub struct ExWlKeyboardInteractivity(WlKeyboardInteractivity);

/// The protocol `Layer` with wire value `value`.
pub uninterp spec fn protocol_layer(value: u32) -> WlLayer;

/// The protocol `Anchor` with bits `bits`.
pub uninterp spec fn protocol_anchor(bits: u32) -> WlAnchor;

/// The protocol `KeyboardInteractivity` with wire value `value`.
pub uninterp spec fn protocol_keyboard_interactivity(value: u32) -> WlKeyboardInteractivity;

/// Builds the protocol `Layer` through its generated `TryFrom<u32>`,
/// which accepts the values 0 to 3 and depends on the value alone (the
/// result is named [`protocol_layer`] of it). The result is opaque here.
#[verifier::external_body]
fn wl_layer_from_wire(value: u32) -> (l: WlLayer)
    requires
        value <= 3,
    ensures
        l == protocol_layer(value),
{
    WlLayer::try_from(value).unwrap()
}

/// Builds the protocol `Anchor` through its generated `TryFrom<u32>`,
/// which accepts any combination of the bits 0x1, 0x2, 0x4, 0x8 and
/// depends on the bits alone (the result is named [`protocol_anchor`] of
/// them). The result is opaque here.
#[verifier::external_body]
fn wl_anchor_from_bits(bits: u32) -> (a: WlAnchor)
    requires
        bits & 0xf == bits,
    ensures
        a == protocol_anchor(bits),
{
    WlAnchor::try_from(bits).unwrap()
}

/// Builds the protocol `KeyboardInteractivity` through its generated
/// `TryFrom<u32>`, which accepts the values 0 to 2 and depends on the
/// value alone (the result is named [`protocol_keyboard_interactivity`]
/// of it). The result is opaque here.
#[verifier::external_body]
fn wl_keyboard_interactivity_from_wire(value: u32) -> (k: WlKeyboardInteractivity)
    requires
        value <= 2,
    ensures
        k == protocol_keyboard_interactivity(value),
{
    WlKeyboardInteractivity::try_from(value).unwrap()
}

/// Layer the surface lives on, from background to overlay.
#[derive(Debug, Clone, Copy, PartialEq, Eq, Hash, Structural)]
pub enum Layer {
    /// Below all regular windows.
    Background,
    /// Between desktop and regular windows.
    Bottom,
    /// Above regular windows (panels, taskbars).
    Top,
    /// Above everything including fullscreen windows.
    Overlay,
}

/// The `zwlr_layer_shell_v1.layer` wire value.
pub open spec fn spec_layer_wire(l: Layer) -> u32 {
    match l {
        Layer::Background => 0,
        Layer::Bottom => 1,
        Layer::Top => 2,
        Layer::Overlay => 3,
    }
}

impl Layer {
    /// The `zwlr_layer_shell_v1.layer` wire value.
    pub fn wire_value(self) -> (v: u32)
        ensures
            v == spec_layer_wire(self),
    {
        match self {
            Layer::Background => 0,
            Layer::Bottom => 1,
            Layer::Top => 2,
            Layer::Overlay => 3,
        }
    }

    /// The protocol value of this layer.
    pub fn to_protocol(self) -> (l: WlLayer)
        ensures
            l == protocol_layer(spec_layer_wire(self)),
    {
        wl_layer_from_wire(self.wire_value())
    }
}

/// Edges of the output the surface anchors to (bits of
/// `zwlr_layer_surface_v1.anchor`).
#[derive(Debug, Clone, Copy, PartialEq, Eq, Hash, Structural)]
pub struct Anchor {
    /// Raw bits; only the four edge bits are ever set.
    bits: u32,
}

impl Anchor {
    /// The anchor's bits (only `0xf` can be set).
    pub closed spec fn spec_bits(self) -> u32 {
        self.bits
    }

    #[verifier::type_invariant]
    spec fn edge_bits_only(self) -> bool {
        self.bits & 0xf == self.bits
    }

    /// No edge.
    pub fn empty() -> (a: Anchor)
        ensures
            a.spec_bits() == 0,
    {
        assert(0u32 & 0xf == 0) by (bit_vector);
        Anchor { bits: 0 }
    }

    /// Top edge.
    pub fn top() -> (a: Anchor)
        ensures
            a.spec_bits() == 1,
    {
        assert(1u32 & 0xf == 1) by (bit_vector);
        Anchor { bits: 1 }
    }

    /// Bottom edge.
    pub fn bottom() -> (a: Anchor)
        ensures
            a.spec_bits() == 2,
    {
        assert(2u32 & 0xf == 2) by (bit_vector);
        Anchor { bits: 2 }
    }

    /// Left edge.
    pub fn left() -> (a: Anchor)
        ensures
            a.spec_bits() == 4,
    {
        assert(4u32 & 0xf == 4) by (bit_vector);
        Anchor { bits: 4 }
    }

    /// Right edge.
    pub fn right() -> (a: Anchor)
        ensures
            a.spec_bits() == 8,
    {
        assert(8u32 & 0xf == 8) by (bit_vector);
        Anchor { bits: 8 }
    }

    /// The anchor with the edge bits of `bits`; other bits are dropped.
    pub fn from_bits_truncate(bits: u32) -> (a: Anchor)
        ensures
            a.spec_bits() == bits & 0xf,
    {
        let b = bits & 0xf;
        assert(b & 0xf == b) by (bit_vector)
            requires
                b == bits & 0xf,
        ;
        Anchor { bits: b }
    }

    /// The raw bits.
    pub fn bits(self) -> (b: u32)
        ensures
            b == self.spec_bits(),
            b & 0xf == b,
    {
        proof {
            use_type_invariant(&self);
        }
        self.bits
    }

    /// Edges of either anchor.
    pub fn union(self, other: Anchor) -> (a: Anchor)
        ensures
            a.spec_bits() == self.spec_bits() | other.spec_bits(),
    {
        proof {
            use_type_invariant(&self);
            use_type_invariant(&other);
        }
        let x = self.bits;
        let y = other.bits;
        assert((x | y) & 0xf == (x | y)) by (bit_vector)
            requires
                x & 0xf == x,
                y & 0xf == y,
        ;
        Anchor { bits: x | y }
    }

    /// Whether every edge of `other` is in `self`.
    pub fn contains(self, other: Anchor) -> (b: bool)
        ensures
            b == (self.spec_bits() & other.spec_bits() == other.spec_bits()),
    {
        self.bits & other.bits == other.bits
    }

    /// The protocol value of these edges.
    pub fn to_protocol(self) -> (a: WlAnchor)
        ensures
            a == protocol_anchor(self.spec_bits()),
    {
        let b = self.bits();
        wl_anchor_from_bits(b)
    }
}

/// How the surface interacts with keyboard focus.
#[derive(Debug, Clone, Copy, PartialEq, Eq, Hash, Structural)]
pub enum KeyboardInteractivity {
    /// Never receives keyboard input (the protocol's `none`).
    Disabled,
    /// Receives keyboard input exclusively.
    Exclusive,
    /// Receives keyboard input when the user clicks into it.
    OnDemand,
}

/// The `zwlr_layer_surface_v1.keyboard_interactivity` wire value.
pub open spec fn spec_keyboard_interactivity_wire(k: KeyboardInteractivity) -> u32 {
    match k {
        KeyboardInteractivity::Disabled => 0,
        KeyboardInteractivity::Exclusive => 1,
        KeyboardInteractivity::OnDemand => 2,
    }
}

impl KeyboardInteractivity {
    /// The `zwlr_layer_surface_v1.keyboard_interactivity` wire value.
    pub fn wire_value(self) -> (v: u32)
        ensures
            v == spec_keyboard_interactivity_wire(self),
    {
        match self {
            KeyboardInteractivity::Disabled => 0,
            KeyboardInteractivity::Exclusive => 1,
            KeyboardInteractivity::OnDemand => 2,
        }
    }

    /// The protocol value.
    pub fn to_protocol(self) -> (k: WlKeyboardInteractivity)
        ensures
            k == protocol_keyboard_interactivity(spec_keyboard_interactivity_wire(self)),
    {
        wl_keyboard_interactivity_from_wire(self.wire_value())
    }
}

/// Margin (in logical pixels) from each anchored edge to the surface.
#[derive(Debug, Clone, Copy, Default, PartialEq, Eq, Hash, Structural)]
pub struct Margin {
    /// Distance from top edge.
    pub top: i32,
    /// Distance from right edge.
    pub right: i32,
    /// Distance from bottom edge.
    pub bottom: i32,
    /// Distance from left edge.
    pub left: i32,
}

/// A `zwlr_layer_surface_v1` request issued while building a layer
/// surface.
#[derive(Debug, PartialEq, Eq)]
pub enum LayerRequest {
    /// `set_anchor`.
    SetAnchor(Anchor),
    /// `set_size`.
    SetSize {
        /// Width (0 = compositor decides).
        width: u32,
        /// Height (0 = compositor decides).
        height: u32,
    },
    /// `set_exclusive_zone`.
    SetExclusiveZone(i32),
    /// `set_margin`.
    SetMargin(Margin),
    /// `set_keyboard_interactivity`.
    SetKeyboardInteractivity(KeyboardInteractivity),
}

/// Builder for a layer surface.
///
/// Defaults: layer `Top`, namespace `"wayr"`, size 0×0 (compositor
/// decides), other options left to the compositor.
pub struct LayerSurfaceBuilder {
    /// Z-layer.
    pub layer: Option<Layer>,
    /// Edge anchors.
    pub anchor: Option<Anchor>,
    /// Initial size.
    pub size: Option<Size>,
    /// Exclusive zone.
    pub exclusive_zone: Option<i32>,
    /// Per-edge margin.
    pub margin: Option<Margin>,
    /// Keyboard interactivity.
    pub keyboard_interactivity: Option<KeyboardInteractivity>,
    /// `zwlr_layer_shell_v1` namespace.
    pub namespace: Option<String>,
}

/// What building a layer surface does once its `wl_surface` exists.
pub struct LayerPlan {
    /// Layer passed to `get_layer_surface`.
    pub layer: Layer,
    /// Namespace passed to `get_layer_surface`.
    pub namespace: String,
    /// Requests to send before the first commit, in order.
    pub requests: Vec<LayerRequest>,
    /// Initial state of the layer surface.
    pub state: SurfaceState,
}

/// Namespace used when the builder names none.
pub open spec fn spec_default_namespace() -> Seq<char> {
    seq!['w', 'a', 'y', 'r']
}

/// The size a layer surface is built with (0 × 0 when unset).
pub open spec fn spec_layer_build_size(b: LayerSurfaceBuilder) -> Size {
    match b.size {
        Some(s) => s,
        None => Size { width: 0, height: 0 },
    }
}

/// The requests of building a layer surface: the anchor when set, the
/// size (always), then the exclusive zone, margin and keyboard
/// interactivity when set.
pub open spec fn spec_layer_requests(b: LayerSurfaceBuilder) -> Seq<LayerRequest> {
    (match b.anchor {
        Some(a) => seq![LayerRequest::SetAnchor(a)],
        None => Seq::empty(),
    }) + seq![LayerRequest::SetSize { width: spec_layer_build_size(b).width, height: spec_layer_build_size(b).height }]
        + (match b.exclusive_zone {
        Some(z) => seq![LayerRequest::SetExclusiveZone(z)],
        None => Seq::empty(),
    }) + (match b.margin {
        Some(m) => seq![LayerRequest::SetMargin(m)],
        None => Seq::empty(),
    }) + (match b.keyboard_interactivity {
        Some(k) => seq![LayerRequest::SetKeyboardInteractivity(k)],
        None => Seq::empty(),
    })
}

impl LayerSurfaceBuilder {
    /// A builder with every option unset.
    pub fn new() -> (b: LayerSurfaceBuilder)
        ensures
            b.layer is None,
            b.anchor is None,
            b.size is None,
            b.exclusive_zone is None,
            b.margin is None,
            b.keyboard_interactivity is None,
            b.namespace is None,
    {
        LayerSurfaceBuilder {
            layer: None,
            anchor: None,
            size: None,
            exclusive_zone: None,
            margin: None,
            keyboard_interactivity: None,
            namespace: None,
        }
    }

    /// Z-layer the surface sits on.
    pub fn with_layer(self, layer: Layer) -> (b: LayerSurfaceBuilder)
        ensures
            b == (LayerSurfaceBuilder { layer: Some(layer), ..self }),
    {
        LayerSurfaceBuilder { layer: Some(layer), ..self }
    }

    /// Edge anchors.
    pub fn with_anchor(self, anchor: Anchor) -> (b: LayerSurfaceBuilder)
        ensures
            b == (LayerSurfaceBuilder { anchor: Some(anchor), ..self }),
    {
        LayerSurfaceBuilder { anchor: Some(anchor), ..self }
    }

    /// Initial surface size; `0` on an axis lets the compositor decide.
    pub fn with_size(self, size: Size) -> (b: LayerSurfaceBuilder)
        ensures
            b == (LayerSurfaceBuilder { size: Some(size), ..self }),
    {
        LayerSurfaceBuilder { size: Some(size), ..self }
    }

    /// Exclusive space reservation.
    pub fn with_exclusive_zone(self, zone: i32) -> (b: LayerSurfaceBuilder)
        ensures
            b == (LayerSurfaceBuilder { exclusive_zone: Some(zone), ..self }),
    {
        LayerSurfaceBuilder { exclusive_zone: Some(zone), ..self }
    }

    /// Per-edge margin.
    pub fn with_margin(self, margin: Margin) -> (b: LayerSurfaceBuilder)
        ensures
            b == (LayerSurfaceBuilder { margin: Some(margin), ..self }),
    {
        LayerSurfaceBuilder { margin: Some(margin), ..self }
    }

    /// Keyboard interactivity behaviour.
    pub fn with_keyboard_interactivity(self, ki: KeyboardInteractivity) -> (b: LayerSurfaceBuilder)
        ensures
            b == (LayerSurfaceBuilder { keyboard_interactivity: Some(ki), ..self }),
    {
        LayerSurfaceBuilder { keyboard_interactivity: Some(ki), ..self }
    }

    /// `zwlr_layer_shell_v1` namespace (a theming / matching hint).
    pub fn with_namespace(self, ns: String) -> (b: LayerSurfaceBuilder)
        ensures
            b == (LayerSurfaceBuilder { namespace: Some(ns), ..self }),
    {
        LayerSurfaceBuilder { namespace: Some(ns), ..self }
    }

    /// The layer, namespace, requests and initial state of the layer
    /// surface `id` built from this builder.
    pub fn plan(self, id: SurfaceId) -> (p: LayerPlan)
        ensures
            p.layer == (match self.layer {
                Some(l) => l,
                None => Layer::Top,
            }),
            self.namespace matches Some(ns) ==> p.namespace == ns,
            self.namespace is None ==> p.namespace@ == spec_default_namespace(),
            p.requests@ == spec_layer_requests(self),
            spec_fresh_surface(p.state, id, spec_layer_build_size(self)),
    {
        let ghost b = self;
        let layer = match self.layer {
            Some(l) => l,
            None => Layer::Top,
        };
        let namespace = match self.namespace {
            Some(ns) => ns,
            None => {
                let mut s = String::new();
                s.append("wayr");
                proof {
                    reveal_strlit("wayr");
                }
                assert(s@ =~= spec_default_namespace());
                s
            },
        };
        let size = match self.size {
            Some(s) => s,
            None => Size { width: 0, height: 0 },
        };
        let mut requests: Vec<LayerRequest> = Vec::new();
        if let Some(a) = self.anchor {
            requests.push(LayerRequest::SetAnchor(a));
        }
        requests.push(LayerRequest::SetSize { width: size.width, height: size.height });
        if let Some(z) = self.exclusive_zone {
            requests.push(LayerRequest::SetExclusiveZone(z));
        }
        if let Some(m) = self.margin {
            requests.push(LayerRequest::SetMargin(m));
        }
        if let Some(k) = self.keyboard_interactivity {
            requests.push(LayerRequest::SetKeyboardInteractivity(k));
        }
        assert(requests@ =~= spec_layer_requests(b));
        LayerPlan { layer, namespace, requests, state: SurfaceState::fresh(id, size) }
    }
}

} // verus!
