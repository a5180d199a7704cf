//! Cursor shape selection (`wp_cursor_shape_device_v1`).
use vstd::prelude::*;
use wayland_protocols::wp::cursor_shape::v1::client::wp_cursor_shape_device_v1::Shape;

verus! {

/// The protocol's cursor shape enum, carried opaquely through the library.
#[verifier::external_type_specification]
#[verifier::external_body]
pub struct ExShape(Shape);

/// Logical cursor shape, mapped to a compositor-provided cursor image.
///
/// Mirrors the W3C `cursor` CSS property and the freedesktop cursor
/// names, one to one with the `wp_cursor_shape_device_v1.shape` values.
#[derive(Debug, Clone, Copy, PartialEq, Eq, Hash, Structural)]
#[non_exhaustive]
pub enum CursorIcon {
    /// Standard arrow.
    Default,
    /// Context menu available.
    ContextMenu,
    /// Help / question mark.
    Help,
    /// Pointing hand (link / clickable).
    Pointer,
    /// Progress indicator (busy but still interactive).
    Progress,
    /// Loading / busy spinner (blocked).
    Wait,
    /// A cell or set of cells may be selected.
    Cell,
    /// Crosshair (precision selection).
    Crosshair,
    /// I-beam (text editing).
    Text,
    /// Vertical text I-beam.
    VerticalText,
    /// Drag-and-drop: alias of / shortcut to something.
    Alias,
    /// Drag-and-drop: copy.
    Copy,
    /// Move / drag.
    Move,
    /// Drag-and-drop: cannot be dropped here.
    NoDrop,
    /// Drag-and-drop: forbidden action.
    NotAllowed,
    /// Drag-and-drop: something can be grabbed.
    Grab,
    /// Drag-and-drop: something is being grabbed.
    Grabbing,
    /// Resize: east border.
    EResize,
    /// Resize: north border.
    NResize,
    /// Resize: north-east corner.
    NeResize,
    /// Resize: north-west corner.
    NwResize,
    /// Resize: south border.
    SResize,
    /// Resize: south-east corner.
    SeResize,
    /// Resize: south-west corner.
    SwResize,
    /// Resize: west border.
    WResize,
    /// Resize: east-west.
    EwResize,
    /// Resize: north-south.
    NsResize,
    /// Resize: north-east-south-west diagonal.
    NeswResize,
    /// Resize: north-west-south-east diagonal.
    NwseResize,
    /// Resize: column (horizontal).
    ColResize,
    /// Resize: row (vertical).
    RowResize,
    /// Scrollable in any direction.
    AllScroll,
    /// Zoom in.
    ZoomIn,
    /// Zoom out.
    ZoomOut,
}

/// The `wp_cursor_shape_device_v1.shape` wire value of each icon.
pub open spec fn spec_cursor_wire(icon: CursorIcon) -> u32 {
    match icon {
        CursorIcon::Default => 1,
        CursorIcon::ContextMenu => 2,
        CursorIcon::Help => 3,
        CursorIcon::Pointer => 4,
        CursorIcon::Progress => 5,
        CursorIcon::Wait => 6,
        CursorIcon::Cell => 7,
        CursorIcon::Crosshair => 8,
        CursorIcon::Text => 9,
        CursorIcon::VerticalText => 10,
        CursorIcon::Alias => 11,
        CursorIcon::Copy => 12,
        CursorIcon::Move => 13,
        CursorIcon::NoDrop => 14,
        CursorIcon::NotAllowed => 15,
        CursorIcon::Grab => 16,
        CursorIcon::Grabbing => 17,
        CursorIcon::EResize => 18,
        CursorIcon::NResize => 19,
        CursorIcon::NeResize => 20,
        CursorIcon::NwResize => 21,
        CursorIcon::SResize => 22,
        CursorIcon::SeResize => 23,
        CursorIcon::SwResize => 24,
        CursorIcon::WResize => 25,
        CursorIcon::EwResize => 26,
        CursorIcon::NsResize => 27,
        CursorIcon::NeswResize => 28,
        CursorIcon::NwseResize => 29,
        CursorIcon::ColResize => 30,
        CursorIcon::RowResize => 31,
        CursorIcon::AllScroll => 32,
        CursorIcon::ZoomIn => 33,
        CursorIcon::ZoomOut => 34,
    }
}

/// The protocol `Shape` with wire value `value`.
pub uninterp spec fn protocol_shape(value: u32) -> Shape;

/// `TryFrom<u32>` of `wp_cursor_shape_device_v1::Shape`, which accepts
/// exactly the values 1 through 36 and is a function of the value alone:
/// the result is named [`protocol_shape`] of it. What a `Shape` holds is
/// not stated here: the type is opaque to the library.
#[verifier::external_body]
fn shape_from_wire(value: u32) -> (shape: Shape)
    requires
        1 <= value <= 36,
    ensures
        shape == protocol_shape(value),
{
    Shape::try_from(value).unwrap()
}

impl Default for CursorIcon {
    /// The standard arrow.
    fn default() -> (c: CursorIcon)
        ensures
            c == CursorIcon::Default,
    {
        CursorIcon::Default
    }
}

impl CursorIcon {
    /// The cursor's `wp_cursor_shape_device_v1.shape` wire value.
    pub fn wire_value(self) -> (v: u32)
        ensures
            v == spec_cursor_wire(self),
            1 <= v <= 34,
    {
        match self {
            CursorIcon::Default => 1,
            CursorIcon::ContextMenu => 2,
            CursorIcon::Help => 3,
            CursorIcon::Pointer => 4,
            CursorIcon::Progress => 5,
            CursorIcon::Wait => 6,
            CursorIcon::Cell => 7,
            CursorIcon::Crosshair => 8,
            CursorIcon::Text => 9,
            CursorIcon::VerticalText => 10,
            CursorIcon::Alias => 11,
            CursorIcon::Copy => 12,
            CursorIcon::Move => 13,
            CursorIcon::NoDrop => 14,
            CursorIcon::NotAllowed => 15,
            CursorIcon::Grab => 16,
            CursorIcon::Grabbing => 17,
            CursorIcon::EResize => 18,
            CursorIcon::NResize => 19,
            CursorIcon::NeResize => 20,
            CursorIcon::NwResize => 21,
            CursorIcon::SResize => 22,
            CursorIcon::SeResize => 23,
            CursorIcon::SwResize => 24,
            CursorIcon::WResize => 25,
            CursorIcon::EwResize => 26,
            CursorIcon::NsResize => 27,
            CursorIcon::NeswResize => 28,
            CursorIcon::NwseResize => 29,
            CursorIcon::ColResize => 30,
            CursorIcon::RowResize => 31,
            CursorIcon::AllScroll => 32,
            CursorIcon::ZoomIn => 33,
            CursorIcon::ZoomOut => 34,
        }
    }

    /// Map to the protocol shape value sent by
    /// `wp_cursor_shape_device_v1.set_shape`.
    pub fn to_protocol(self) -> (s: Shape)
        ensures
            s == protocol_shape(spec_cursor_wire(self)),
    {
        shape_from_wire(self.wire_value())
    }
}

} // verus!
