use miku_overlay::overlay::{scale_dimension, Overlay, RIGHT_INSET};
use miku_overlay::tracker::OverlayAction;

fn overlay() -> Overlay {
    Overlay { sprite_width: 180, sprite_height: 45, margin_left: 0, margin_top: 0, visible: false }
}

#[test]
fn sprite_scaled_to_three_quarters() {
    assert_eq!(scale_dimension(240), 180);
    assert_eq!(scale_dimension(60), 45);
    assert_eq!(scale_dimension(1), 0);
    assert_eq!(scale_dimension(7), 5);
    assert_eq!(scale_dimension(-7), -5);
    assert_eq!(scale_dimension(i32::MAX), ((i32::MAX as f64) * 0.75) as i32);
    assert_eq!(scale_dimension(i32::MIN), ((i32::MIN as f64) * 0.75) as i32);
}

#[test]
fn position_at_top_right() {
    let mut o = overlay();
    o.update_position(100, 20, 1000);
    assert_eq!(o.margin_left, 100 + 1000 - 180 - RIGHT_INSET);
    assert_eq!(o.margin_left, 820);
    assert_eq!(o.margin_top, 20);
    assert!(!o.visible);
}

#[test]
fn show_and_hide() {
    let mut o = overlay();
    o.show();
    assert!(o.visible);
    o.hide_overlay();
    assert!(!o.visible);
}

#[test]
fn apply_refuses_overflowing_position() {
    let mut o = overlay();
    let before = o;
    assert!(!o.apply(OverlayAction::UpdatePosition { x: i32::MAX, y: 0, width: 1 }));
    assert_eq!(o, before);
    assert!(!o.apply(OverlayAction::UpdatePosition { x: i32::MIN, y: 0, width: 0 }));
    assert_eq!(o, before);
}

#[test]
fn apply_actions() {
    let mut o = overlay();
    assert!(o.apply(OverlayAction::UpdatePosition { x: 0, y: 7, width: 500 }));
    assert_eq!((o.margin_left, o.margin_top), (220, 7));
    assert!(o.apply(OverlayAction::Show));
    assert!(o.visible);
    let before = o;
    assert!(o.apply(OverlayAction::RefreshFromTree));
    assert_eq!(o, before);
    assert!(o.apply(OverlayAction::Hide));
    assert!(!o.visible);
}
