use wayr::layer_shell::LayerRequest;
use wayr::toplevel::{size_hint_args, ToplevelRequest};
use wayr::{Anchor, KeyboardInteractivity, Layer, LayerSurfaceBuilder, Margin, Size, SurfaceId, ToplevelBuilder};

fn sid(n: u64) -> SurfaceId {
    SurfaceId::from_raw(n).unwrap()
}

#[test]
fn toplevel_defaults() {
    let p = ToplevelBuilder::new().plan(sid(1), "demo-app".to_string());
    assert_eq!(p.app_id, "demo-app");
    assert_eq!(p.requests, vec![ToplevelRequest::SetAppId("demo-app".to_string())]);
    assert_eq!(p.state.id, sid(1));
    assert_eq!(p.state.preferred_size, Size::new(800, 600));
    assert_eq!(p.state.current_size, Size::new(0, 0));
    assert_eq!(p.state.scale_120, 120);
    assert_eq!(p.state.last_emitted_scale_120, 0);
}

#[test]
fn toplevel_requests_in_order() {
    let p = ToplevelBuilder::new()
        .with_max_size(Size::new(1000, 900))
        .with_title("Hello".to_string())
        .with_app_id("org.example".to_string())
        .with_initial_size(Size::new(320, 240))
        .with_min_size(Size::new(100, 50))
        .plan(sid(4), "unused".to_string());
    assert_eq!(p.app_id, "org.example");
    assert_eq!(
        p.requests,
        vec![
            ToplevelRequest::SetTitle("Hello".to_string()),
            ToplevelRequest::SetAppId("org.example".to_string()),
            ToplevelRequest::SetMinSize { width: 100, height: 50 },
            ToplevelRequest::SetMaxSize { width: 1000, height: 900 },
        ]
    );
    assert_eq!(p.state.preferred_size, Size::new(320, 240));
}

#[test]
fn size_hints_default_to_unconstrained() {
    assert_eq!(size_hint_args(None), (0, 0));
    assert_eq!(size_hint_args(Some(Size::new(7, 8))), (7, 8));
}

#[test]
fn layer_defaults() {
    let p = LayerSurfaceBuilder::new().plan(sid(2));
    assert_eq!(p.layer, Layer::Top);
    assert_eq!(p.namespace, "wayr");
    assert_eq!(p.requests, vec![LayerRequest::SetSize { width: 0, height: 0 }]);
    assert_eq!(p.state.preferred_size, Size::new(0, 0));
}

#[test]
fn layer_requests_in_order() {
    let anchor = Anchor::top().union(Anchor::left()).union(Anchor::right());
    let margin = Margin { top: 1, right: 2, bottom: 3, left: 4 };
    let p = LayerSurfaceBuilder::new()
        .with_keyboard_interactivity(KeyboardInteractivity::OnDemand)
        .with_layer(Layer::Overlay)
        .with_anchor(anchor)
        .with_size(Size::new(0, 30))
        .with_exclusive_zone(30)
        .with_margin(margin)
        .with_namespace("panel".to_string())
        .plan(sid(3));
    assert_eq!(p.layer, Layer::Overlay);
    assert_eq!(p.namespace, "panel");
    assert_eq!(
        p.requests,
        vec![
            LayerRequest::SetAnchor(anchor),
            LayerRequest::SetSize { width: 0, height: 30 },
            LayerRequest::SetExclusiveZone(30),
            LayerRequest::SetMargin(margin),
            LayerRequest::SetKeyboardInteractivity(KeyboardInteractivity::OnDemand),
        ]
    );
    assert_eq!(p.state.preferred_size, Size::new(0, 30));
}

#[test]
fn anchor_bits() {
    let a = Anchor::top().union(Anchor::bottom());
    assert_eq!(a.bits(), 3);
    assert!(a.contains(Anchor::bottom()));
    assert!(!a.contains(Anchor::left()));
    assert_eq!(Anchor::from_bits_truncate(0xff).bits(), 0xf);
    assert_eq!(Anchor::empty().bits(), 0);
    assert_eq!(Anchor::right().bits(), 8);
}

#[test]
fn layer_wire_values_reach_the_protocol() {
    assert_eq!(u32::from(Layer::Background.to_protocol()), 0);
    assert_eq!(u32::from(Layer::Overlay.to_protocol()), 3);
    assert_eq!(Layer::Bottom.wire_value(), 1);
    assert_eq!(u32::from(KeyboardInteractivity::Exclusive.to_protocol()), 1);
    assert_eq!(u32::from(KeyboardInteractivity::Disabled.to_protocol()), 0);
    let a = Anchor::left().union(Anchor::right()).to_protocol();
    assert_eq!(a.bits(), 12);
}
