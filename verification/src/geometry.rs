//! Geometry of the tracked window.
use vstd::prelude::*;

verus! {

/// A rectangle in output coordinates, as Sway reports it.
#[derive(Clone, Copy, Debug, PartialEq, Eq, Structural)]
pub struct Rect {
    pub x: i32,
    pub y: i32,
    pub width: i32,
    pub height: i32,
}

/// Position, size and state of the tracked browser window.
#[derive(Clone, Copy, Debug, Default, PartialEq, Eq, Structural)]
pub struct HeliumGeometry {
    pub x: i32,
    pub y: i32,
    pub width: i32,
    pub height: i32,
    pub fullscreen: bool,
    pub visible: bool,
}

impl HeliumGeometry {
    /// The overlay is only shown over a window that is visible and not fullscreen.
    pub open spec fn wants_overlay(self) -> bool {
        self.visible && !self.fullscreen
    }
}

/// The application id of the tracked browser.
pub open spec fn target_app_id() -> Seq<char> {
    seq!['h', 'e', 'l', 'i', 'u', 'm']
}

/// Whether an optional application id names the tracked browser.
pub open spec fn is_target(app_id: Option<String>) -> bool {
    match app_id {
        Some(id) => id@ == target_app_id(),
        None => false,
    }
}

/// Tests an optional application id against the tracked browser's id.
pub fn app_id_is_target(app_id: &Option<String>) -> (res: bool)
    ensures
        res == is_target(*app_id),
{
    match app_id {
        Some(id) => {
            let target = String::from_str("helium");
            proof {
                reveal_strlit("helium");
                assert("helium"@ =~= target_app_id());
            }
            *id == target
        },
        None => false,
    }
}

/// A fullscreen mode counts as fullscreen when it is present and positive.
pub open spec fn fullscreen_flag(mode: Option<u8>) -> bool {
    match mode {
        Some(m) => m > 0,
        None => false,
    }
}

/// Reads Sway's optional fullscreen mode as a flag.
pub fn is_fullscreen(mode: Option<u8>) -> (res: bool)
    ensures
        res == fullscreen_flag(mode),
{
    match mode {
        Some(m) => m > 0,
        None => false,
    }
}

/// How Sway's fields are read: a window is the browser's exactly when its app
/// id is "helium"; it is fullscreen exactly when a fullscreen mode is given and
/// positive; the overlay is wanted exactly over a visible, non-fullscreen window.
pub proof fn lemma_readings(app_id: Option<String>, mode: Option<u8>, g: HeliumGeometry)
    ensures
        is_target(app_id) <==> (app_id matches Some(id) && id@ == seq!['h', 'e', 'l', 'i', 'u', 'm']),
        fullscreen_flag(mode) <==> (mode matches Some(m) && m >= 1),
        g.wants_overlay() <==> (g.visible && !g.fullscreen),
{
}

} // verus!
