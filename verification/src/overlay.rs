use vstd::prelude::*;
use crate::geometry::{
    Rect, WindowInfo, calculate_geometry, geometry_fits, label_rel_x, label_rel_y,
};
use crate::label::{label, spec_label};
use crate::selection::{resolve_keypress, spec_resolve};

verus! {

/// What the overlay draws for one window: the label character, the anchor
/// of the label relative to the output's origin, and whether the style for
/// the focused window applies. Never mutated after creation.
#[derive(Clone, Copy, Debug, PartialEq, Eq, Structural)]
pub struct LabelPlacement {
    pub label: char,
    pub x: i32,
    pub y: i32,
    pub focused: bool,
}

/// Whether every window of the snapshot has label geometry that fits in
/// machine integers for the given output origin and margins.
pub open spec fn all_geometry_fits(
    windows: Seq<WindowInfo>,
    output: Rect,
    margin_x: int,
    margin_y: int,
) -> bool {
    forall|i: int|
        0 <= i < windows.len() ==> geometry_fits(#[trigger] windows[i], output, margin_x, margin_y)
}

/// Builds the whole overlay plan for one activation: position `i` of the
/// ordered window list gets the label of position `i`, anchored at that
/// window's label coordinates. The plan is empty exactly when the list is,
/// in which case the caller creates no overlay at all.
pub fn build_overlay_plan(
    windows: &Vec<WindowInfo>,
    output: &Rect,
    margin_x: i32,
    margin_y: i32,
) -> (plan: Vec<LabelPlacement>)
    requires
        all_geometry_fits(windows@, *output, margin_x as int, margin_y as int),
    ensures
        plan@.len() == windows@.len(),
        forall|i: int|
            0 <= i < windows@.len() ==> (#[trigger] plan@[i]).label == spec_label(i as nat),
        forall|i: int|
            0 <= i < windows@.len() ==> (#[trigger] plan@[i]).x == label_rel_x(
                windows@[i],
                output.x as int,
                margin_x as int,
            ),
        forall|i: int|
            0 <= i < windows@.len() ==> (#[trigger] plan@[i]).y == label_rel_y(
                windows@[i],
                output.y as int,
                margin_y as int,
            ),
        forall|i: int|
            0 <= i < windows@.len() ==> (#[trigger] plan@[i]).focused == windows@[i].focused,
{
    let mut plan: Vec<LabelPlacement> = Vec::new();
    let mut idx: usize = 0;
    while idx < windows.len()
        invariant
            idx <= windows.len(),
            plan@.len() == idx,
            all_geometry_fits(windows@, *output, margin_x as int, margin_y as int),
            forall|i: int| 0 <= i < idx ==> (#[trigger] plan@[i]).label == spec_label(i as nat),
            forall|i: int|
                0 <= i < idx ==> (#[trigger] plan@[i]).x == label_rel_x(
                    windows@[i],
                    output.x as int,
                    margin_x as int,
                ),
            forall|i: int|
                0 <= i < idx ==> (#[trigger] plan@[i]).y == label_rel_y(
                    windows@[i],
                    output.y as int,
                    margin_y as int,
                ),
            forall|i: int| 0 <= i < idx ==> (#[trigger] plan@[i]).focused == windows@[i].focused,
        decreases windows.len() - idx,
    {
        let w = windows[idx];
        let pos = calculate_geometry(&w, output, margin_x, margin_y);
        let c = label(idx);
        plan.push(LabelPlacement { label: c, x: pos.0, y: pos.1, focused: w.focused });
        idx = idx + 1;
    }
    plan
}

/// The overlay's lifecycle for one activation. A run either selects exactly
/// one window or selects none; there is no retry state and no timeout
/// state, and no input is accepted after the first keypress.
#[derive(Clone, Copy, Debug, PartialEq, Eq, Structural)]
pub enum OverlayState {
    /// Before activation.
    Idle,
    /// The overlay is shown, holds the keyboard, and waits for exactly one
    /// keypress.
    WaitingForKey,
    /// Torn down; nothing further happens in this run.
    Closed,
}

impl OverlayState {
    /// The activation step. With zero windows on the focused workspace the
    /// overlay is never created and the run ends at once, with no rendering
    /// and no focus command; otherwise the overlay waits for one keypress.
    pub fn on_activate(&self, window_count: usize) -> (next: OverlayState)
        requires
            *self is Idle,
        ensures
            window_count == 0 ==> next is Closed,
            window_count > 0 ==> next is WaitingForKey,
    {
        if window_count == 0 {
            OverlayState::Closed
        } else {
            OverlayState::WaitingForKey
        }
    }

    /// The keypress step: the single keypress is resolved against the
    /// window count, and whatever the outcome, the overlay closes
    /// immediately. A selection asks for exactly one focus command, against
    /// the window at the returned index.
    pub fn on_key(&self, key_name: &str, window_count: usize) -> (r: (OverlayState, Option<usize>))
        requires
            *self is WaitingForKey,
        ensures
            r.0 is Closed,
            (match r.1 {
                Some(i) => spec_resolve(key_name@, window_count as nat) == Some(i as int),
                None => spec_resolve(key_name@, window_count as nat) is None,
            }),
            r.1 matches Some(i) ==> i < window_count,
    {
        (OverlayState::Closed, resolve_keypress(key_name, window_count))
    }
}

} // verus!
