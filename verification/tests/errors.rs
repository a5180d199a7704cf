use wayr::{CursorIcon, Error, PresentFlags};

#[test]
fn error_messages() {
    assert_eq!(Error::NotWayland("WAYLAND_DISPLAY unset".to_string()).message(), "not a wayland session: WAYLAND_DISPLAY unset");
    assert_eq!(
        Error::MissingGlobal { name: "xdg_wm_base" }.message(),
        "compositor does not advertise the xdg_wm_base global"
    );
    assert_eq!(
        Error::Protocol { interface: "wl_surface", code: 1204, message: "bad".to_string() }.message(),
        "wayland protocol error on wl_surface (code 1204): bad"
    );
    assert_eq!(
        Error::Protocol { interface: "wl_display", code: 0, message: String::new() }.message(),
        "wayland protocol error on wl_display (code 0): "
    );
    assert_eq!(Error::Keymap("bad fd".to_string()).message(), "xkbcommon keymap: bad fd");
    assert_eq!(Error::InvalidOperation("resize a layer surface").message(), "invalid operation: resize a layer surface");
}

#[test]
fn io_error_converts_and_is_prefixed() {
    let io = std::io::Error::new(std::io::ErrorKind::BrokenPipe, "pipe closed");
    let e: Error = io.into();
    assert!(matches!(e, Error::Io(_)));
    assert_eq!(e.message(), "wayland socket I/O: pipe closed");
}

#[test]
fn cursor_shapes_map_to_protocol_values() {
    assert_eq!(CursorIcon::Default.wire_value(), 1);
    assert_eq!(u32::from(CursorIcon::Default.to_protocol()), 1);
    assert_eq!(u32::from(CursorIcon::Text.to_protocol()), 9);
    assert_eq!(u32::from(CursorIcon::NwseResize.to_protocol()), 29);
    assert_eq!(u32::from(CursorIcon::ZoomOut.to_protocol()), 34);
}

#[test]
fn presentation_flags() {
    let f = PresentFlags { bits: PresentFlags::vsync().bits | PresentFlags::zero_copy().bits };
    assert!(f.contains(PresentFlags::vsync()));
    assert!(f.contains(PresentFlags::zero_copy()));
    assert!(!f.contains(PresentFlags::hw_clock()));
    assert_eq!(PresentFlags::hw_completion().bits, 4);
}

#[test]
fn default_cursor_is_the_arrow() {
    assert_eq!(CursorIcon::default(), CursorIcon::Default);
    assert_eq!(CursorIcon::default().wire_value(), 1);
}

#[test]
fn source_is_the_io_error_only() {
    let e: Error = std::io::Error::new(std::io::ErrorKind::TimedOut, "slow").into();
    let src = e.source().expect("io error has a source");
    assert_eq!(src.kind(), std::io::ErrorKind::TimedOut);
    assert_eq!(src.to_string(), "slow");
    assert!(Error::Keymap("x".to_string()).source().is_none());
    assert!(Error::MissingGlobal { name: "wl_seat" }.source().is_none());
}
