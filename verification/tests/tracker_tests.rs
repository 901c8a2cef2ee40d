use miku_overlay::geometry::{HeliumGeometry, Rect};
use miku_overlay::overlay::Overlay;
use miku_overlay::tracker::{
    apply_geometry, handle_event, handle_window_event, initial_placement, Container,
    OverlayAction, TrackerEvent, WindowChange, WindowEvent,
};

fn event(change: WindowChange, app_id: &str, fullscreen: Option<u8>, visible: Option<bool>) -> WindowEvent {
    WindowEvent {
        change,
        container: Container {
            app_id: Some(app_id.to_string()),
            rect: Rect { x: 100, y: 20, width: 1000, height: 700 },
            fullscreen_mode: fullscreen,
            visible,
        },
    }
}

fn geo(fullscreen: bool, visible: bool) -> HeliumGeometry {
    HeliumGeometry { x: 0, y: 0, width: 500, height: 400, fullscreen, visible }
}

fn placed() -> OverlayAction {
    OverlayAction::UpdatePosition { x: 100, y: 20, width: 1000 }
}

fn sprite_overlay() -> Overlay {
    Overlay { sprite_width: 180, sprite_height: 45, margin_left: 0, margin_top: 0, visible: false }
}

fn run(overlay: &mut Overlay, actions: &[OverlayAction]) {
    for a in actions {
        assert!(overlay.apply(*a));
    }
}

#[test]
fn new_window_is_followed() {
    let mut g = None;
    let acts = handle_window_event(&event(WindowChange::New, "helium", None, Some(true)), &mut g);
    assert_eq!(acts, vec![placed(), OverlayAction::Show]);
    assert_eq!(
        g,
        Some(HeliumGeometry { x: 100, y: 20, width: 1000, height: 700, fullscreen: false, visible: true })
    );
    let mut ov = sprite_overlay();
    run(&mut ov, &acts);
    assert!(ov.visible);
    assert_eq!(ov.margin_left + ov.sprite_width + 100, 100 + 1000);
    assert_eq!(ov.margin_top, 20);
}

#[test]
fn event_without_visibility_counts_as_visible() {
    let mut g = None;
    let acts = handle_window_event(&event(WindowChange::Move, "helium", None, None), &mut g);
    assert_eq!(acts, vec![placed(), OverlayAction::Show]);
    assert!(g.unwrap().visible);
}

#[test]
fn fullscreen_window_on_focus_hides() {
    let mut g = None;
    let acts = handle_window_event(&event(WindowChange::Focus, "helium", Some(1), Some(true)), &mut g);
    assert_eq!(acts, vec![OverlayAction::Hide]);
    assert!(g.unwrap().fullscreen);
}

#[test]
fn hidden_window_on_move_hides() {
    let mut g = None;
    let acts = handle_window_event(&event(WindowChange::Move, "helium", None, Some(false)), &mut g);
    assert_eq!(acts, vec![OverlayAction::Hide]);
    assert!(!g.unwrap().visible);
}

#[test]
fn other_window_focus_asks_for_lookup() {
    let mut g = Some(geo(false, true));
    let acts = handle_window_event(&event(WindowChange::Focus, "firefox", None, Some(true)), &mut g);
    assert_eq!(acts, vec![OverlayAction::RefreshFromTree]);
    assert_eq!(g, Some(geo(false, true)));
}

#[test]
fn other_window_events_are_ignored() {
    for change in [WindowChange::New, WindowChange::Close, WindowChange::FullscreenMode, WindowChange::Title] {
        let mut g = Some(geo(false, true));
        let acts = handle_window_event(&event(change, "firefox", Some(1), Some(true)), &mut g);
        assert!(acts.is_empty());
        assert_eq!(g, Some(geo(false, true)));
    }
}

#[test]
fn close_hides_and_forgets() {
    let mut g = Some(geo(false, true));
    let acts = handle_window_event(&event(WindowChange::Close, "helium", None, None), &mut g);
    assert_eq!(acts, vec![OverlayAction::Hide]);
    assert_eq!(g, None);
}

#[test]
fn entering_fullscreen_hides() {
    let mut g = Some(geo(false, true));
    let acts =
        handle_window_event(&event(WindowChange::FullscreenMode, "helium", Some(2), None), &mut g);
    assert_eq!(acts, vec![OverlayAction::Hide]);
    assert_eq!(g, Some(geo(true, true)));
}

#[test]
fn leaving_fullscreen_shows_again() {
    let mut g = Some(geo(true, true));
    let acts =
        handle_window_event(&event(WindowChange::FullscreenMode, "helium", Some(0), None), &mut g);
    assert_eq!(acts, vec![placed(), OverlayAction::Show]);
    assert_eq!(g, Some(geo(false, true)));
}

#[test]
fn fullscreen_change_without_remembered_geometry() {
    let mut g = None;
    let acts =
        handle_window_event(&event(WindowChange::FullscreenMode, "helium", None, None), &mut g);
    assert_eq!(acts, vec![placed(), OverlayAction::Show]);
    assert_eq!(g, None);
}

#[test]
fn title_change_follows_shown_window() {
    let mut g = Some(geo(false, true));
    let acts = handle_window_event(&event(WindowChange::Title, "helium", None, None), &mut g);
    assert_eq!(acts, vec![placed()]);
    assert_eq!(
        g,
        Some(HeliumGeometry { x: 100, y: 20, width: 1000, height: 700, fullscreen: false, visible: true })
    );
}

#[test]
fn title_change_of_hidden_window_only_records() {
    let mut g = Some(geo(true, true));
    let acts = handle_window_event(&event(WindowChange::Floating, "helium", None, None), &mut g);
    assert!(acts.is_empty());
    assert_eq!(g.unwrap().x, 100);
    let mut none = None;
    let acts = handle_window_event(&event(WindowChange::Mark, "helium", None, None), &mut none);
    assert!(acts.is_empty());
    assert_eq!(none, None);
}

#[test]
fn workspace_event_asks_for_lookup() {
    let mut g = None;
    assert_eq!(handle_event(&TrackerEvent::Workspace, &mut g), vec![OverlayAction::RefreshFromTree]);
    assert!(handle_event(&TrackerEvent::Other, &mut g).is_empty());
    let acts = handle_event(
        &TrackerEvent::Window(event(WindowChange::Close, "helium", None, None)),
        &mut g,
    );
    assert_eq!(acts, vec![OverlayAction::Hide]);
}

#[test]
fn lookup_result_applied() {
    let mut g = None;
    let found = HeliumGeometry { x: 100, y: 20, width: 1000, height: 700, fullscreen: false, visible: true };
    assert_eq!(apply_geometry(&mut g, Some(found)), vec![placed(), OverlayAction::Show]);
    assert_eq!(g, Some(found));
    assert_eq!(apply_geometry(&mut g, Some(geo(true, true))), vec![OverlayAction::Hide]);
    assert_eq!(apply_geometry(&mut g, Some(geo(false, false))), vec![OverlayAction::Hide]);
    assert_eq!(apply_geometry(&mut g, None), vec![OverlayAction::Hide]);
    assert_eq!(g, None);
}

#[test]
fn repeated_lookup_changes_nothing() {
    let found = HeliumGeometry { x: 100, y: 20, width: 1000, height: 700, fullscreen: false, visible: true };
    let mut g = None;
    let mut ov = sprite_overlay();
    let acts = apply_geometry(&mut g, Some(found));
    run(&mut ov, &acts);
    let after_once = ov;
    let acts = apply_geometry(&mut g, Some(found));
    run(&mut ov, &acts);
    assert_eq!(ov, after_once);
}

#[test]
fn startup_placement() {
    let found = HeliumGeometry { x: 100, y: 20, width: 1000, height: 700, fullscreen: false, visible: true };
    let (g, acts) = initial_placement(Some(found));
    assert_eq!(g, Some(found));
    assert_eq!(acts, vec![placed(), OverlayAction::Show]);
    let hidden = HeliumGeometry { visible: false, ..found };
    let (_, acts) = initial_placement(Some(hidden));
    assert_eq!(acts, vec![placed()]);
    let (g, acts) = initial_placement(None);
    assert_eq!(g, None);
    assert!(acts.is_empty());
}
