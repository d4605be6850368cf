use vstd::prelude::*;

verus! {

/// An axis-aligned rectangle in pixels. A window's outer rectangle is
/// positioned in global coordinates; its content and decoration rectangles
/// are positioned relative to the outer rectangle.
#[derive(Clone, Copy, Debug, PartialEq, Eq, Structural)]
pub struct Rect {
    pub x: i32,
    pub y: i32,
    pub width: i32,
    pub height: i32,
}

/// One focusable window of the snapshot taken at overlay activation.
#[derive(Clone, Copy, Debug, PartialEq, Eq, Structural)]
pub struct WindowInfo {
    /// Position and size of the window's container, in global coordinates.
    pub outer: Rect,
    /// The content area, relative to `outer`.
    pub content: Rect,
    /// The decoration (titlebar/border), relative to `outer`.
    pub deco: Rect,
    /// Whether this window currently holds input focus.
    pub focused: bool,
    /// Opaque compositor handle for this window, used to issue the focus
    /// command; it stays valid for the overlay's lifetime only.
    pub id: i64,
}

/// Horizontal anchor of a window's label, relative to the output's origin:
/// `outer.x + content.x + deco.x + margin_x - output_x`.
pub open spec fn label_rel_x(w: WindowInfo, output_x: int, margin_x: int) -> int {
    w.outer.x + w.content.x + w.deco.x + margin_x - output_x
}

/// Vertical anchor of a window's label, relative to the output's origin:
/// `outer.y - (deco.height - margin_y) - output_y`, which places the label
/// just above the window's decoration.
pub open spec fn label_rel_y(w: WindowInfo, output_y: int, margin_y: int) -> int {
    w.outer.y - (w.deco.height - margin_y) - output_y
}

/// Whether both label coordinates of `w` fit in machine integers for the
/// given output origin and margins.
pub open spec fn geometry_fits(w: WindowInfo, output: Rect, margin_x: int, margin_y: int) -> bool {
    &&& i32::MIN <= label_rel_x(w, output.x as int, margin_x) <= i32::MAX
    &&& i32::MIN <= label_rel_y(w, output.y as int, margin_y) <= i32::MAX
}

/// Computes the pixel offset, relative to the output's origin, at which the
/// window's label is anchored. Negative coordinates are valid results and
/// are not clamped.
pub fn calculate_geometry(window: &WindowInfo, output: &Rect, margin_x: i32, margin_y: i32) -> (pos: (
    i32,
    i32,
))
    requires
        geometry_fits(*window, *output, margin_x as int, margin_y as int),
    ensures
        pos.0 == label_rel_x(*window, output.x as int, margin_x as int),
        pos.1 == label_rel_y(*window, output.y as int, margin_y as int),
{
    let rel_x: i64 = window.outer.x as i64 + window.content.x as i64 + window.deco.x as i64
        + margin_x as i64;
    let rel_y: i64 = window.outer.y as i64 - (window.deco.height as i64 - margin_y as i64);
    ((rel_x - output.x as i64) as i32, (rel_y - output.y as i64) as i32)
}

} // verus!
