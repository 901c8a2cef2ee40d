//! How the overlay as a whole responds to what happens to the browser window:
//! the decisions of the tracker applied to the overlay's state.
use vstd::prelude::*;
use crate::geometry::{HeliumGeometry, fullscreen_flag, is_target};
use crate::overlay::{Overlay, RIGHT_INSET};
use crate::tracker::{
    OverlayAction, WindowChange, WindowEvent, container_geometry, moved_to, placement_actions,
    refresh_actions, startup_reaction, window_reaction, event_reaction, TrackerEvent,
};

verus! {

proof fn lemma_after_one(ov: Overlay, a: OverlayAction)
    ensures
        ov.after_actions(seq![a]) == ov.after_action(a),
{
    assert(seq![a].drop_first() =~= Seq::<OverlayAction>::empty());
    assert(seq![a][0] == a);
    assert(ov.after_action(a).after_actions(Seq::<OverlayAction>::empty()) == ov.after_action(a));
}

proof fn lemma_after_two(ov: Overlay, a: OverlayAction, b: OverlayAction)
    ensures
        ov.after_actions(seq![a, b]) == ov.after_action(a).after_action(b),
{
    assert(seq![a, b].drop_first() =~= seq![b]);
    assert(seq![a, b][0] == a);
    lemma_after_one(ov.after_action(a), b);
}

proof fn lemma_placement(ov: Overlay, g: HeliumGeometry)
    ensures
        ov.after_actions(placement_actions(g)) == (if (g.visible && !g.fullscreen) {
            Overlay { visible: true, ..ov.positioned(g.x, g.y, g.width) }
        } else {
            Overlay { visible: false, ..ov }
        }),
{
    if (g.visible && !g.fullscreen) {
        lemma_after_two(
            ov,
            OverlayAction::UpdatePosition { x: g.x, y: g.y, width: g.width },
            OverlayAction::Show,
        );
    } else {
        lemma_after_one(ov, OverlayAction::Hide);
    }
}

/// After a layout tree lookup the overlay is shown exactly when the window
/// found is visible and not fullscreen, and then it sits at the window's
/// top-right corner; otherwise it keeps its place.
pub proof fn lemma_refresh_shows_exactly_when_wanted(ov: Overlay, found: Option<HeliumGeometry>)
    requires
        ov.actions_fit(refresh_actions(found)),
    ensures
        ov.after_actions(refresh_actions(found)).visible == (found matches Some(g) && (g.visible && !g.fullscreen)),
        ov.after_actions(refresh_actions(found)).sprite_width == ov.sprite_width,
        found matches Some(g) ==> ((g.visible && !g.fullscreen) ==> {
            &&& ov.after_actions(refresh_actions(found)).margin_left + ov.sprite_width + RIGHT_INSET
                == g.x + g.width
            &&& ov.after_actions(refresh_actions(found)).margin_top == g.y
        }),
        !(found matches Some(g) && (g.visible && !g.fullscreen)) ==> {
            &&& ov.after_actions(refresh_actions(found)).margin_left == ov.margin_left
            &&& ov.after_actions(refresh_actions(found)).margin_top == ov.margin_top
        },
{
    match found {
        Some(g) => {
            lemma_placement(ov, g);
            if (g.visible && !g.fullscreen) {
                assert(ov.action_fits(refresh_actions(found)[0]));
            }
        },
        None => lemma_after_one(ov, OverlayAction::Hide),
    }
}

/// Looking the window up again and finding the same geometry changes nothing:
/// the periodic lookup is idempotent on the overlay and on the remembered
/// geometry.
pub proof fn lemma_refresh_idempotent(ov: Overlay, found: Option<HeliumGeometry>)
    requires
        ov.actions_fit(refresh_actions(found)),
    ensures
        ov.after_actions(refresh_actions(found)).after_actions(refresh_actions(found))
            == ov.after_actions(refresh_actions(found)),
{
    let once = ov.after_actions(refresh_actions(found));
    match found {
        Some(g) => {
            lemma_placement(ov, g);
            lemma_placement(once, g);
            if (g.visible && !g.fullscreen) {
                assert(ov.action_fits(refresh_actions(found)[0]));
            }
        },
        None => {
            lemma_after_one(ov, OverlayAction::Hide);
            lemma_after_one(once, OverlayAction::Hide);
        },
    }
}

/// When the browser window closes, the remembered geometry is dropped and the
/// overlay is hidden, in place.
pub proof fn lemma_close_hides(event: WindowEvent, geo: Option<HeliumGeometry>, ov: Overlay)
    requires
        event.change == WindowChange::Close,
        is_target(event.container.app_id),
    ensures
        window_reaction(event, geo).0 is None,
        ov.after_actions(window_reaction(event, geo).1) == (Overlay { visible: false, ..ov }),
{
    lemma_after_one(ov, OverlayAction::Hide);
}

/// When the browser window appears, moves or gains focus, its geometry is
/// remembered and the overlay follows it: shown at its top-right corner when
/// it is visible and not fullscreen, hidden otherwise.
pub proof fn lemma_window_followed(event: WindowEvent, geo: Option<HeliumGeometry>, ov: Overlay)
    requires
        event.change == WindowChange::New || event.change == WindowChange::Move || event.change
            == WindowChange::Focus,
        is_target(event.container.app_id),
        ov.actions_fit(window_reaction(event, geo).1),
    ensures
        window_reaction(event, geo).0 == Some(container_geometry(event.container)),
        ov.after_actions(window_reaction(event, geo).1).visible == (event.container.visible != Some(
            false,
        ) && !(event.container.fullscreen_mode matches Some(m) && m > 0)),
        event.container.visible != Some(false) && !(event.container.fullscreen_mode matches Some(m)
            && m > 0) ==> {
            &&& ov.after_actions(window_reaction(event, geo).1).margin_left + ov.sprite_width
                + RIGHT_INSET == event.container.rect.x + event.container.rect.width
            &&& ov.after_actions(window_reaction(event, geo).1).margin_top == event.container.rect.y
        },
{
    let g = container_geometry(event.container);
    lemma_placement(ov, g);
    if (g.visible && !g.fullscreen) {
        assert(ov.action_fits(window_reaction(event, geo).1[0]));
    }
}

/// Entering fullscreen hides the overlay; leaving it shows the overlay again at
/// the window's top-right corner. The remembered geometry, if any, records the
/// new fullscreen state and nothing else.
pub proof fn lemma_fullscreen_toggles(event: WindowEvent, geo: Option<HeliumGeometry>, ov: Overlay)
    requires
        event.change == WindowChange::FullscreenMode,
        is_target(event.container.app_id),
        ov.actions_fit(window_reaction(event, geo).1),
    ensures
        ov.after_actions(window_reaction(event, geo).1).visible == !fullscreen_flag(
            event.container.fullscreen_mode,
        ),
        !fullscreen_flag(event.container.fullscreen_mode) ==> {
            &&& ov.after_actions(window_reaction(event, geo).1).margin_left + ov.sprite_width
                + RIGHT_INSET == event.container.rect.x + event.container.rect.width
            &&& ov.after_actions(window_reaction(event, geo).1).margin_top == event.container.rect.y
        },
        window_reaction(event, geo).0 == match geo {
            Some(g) => Some(
                HeliumGeometry { fullscreen: fullscreen_flag(event.container.fullscreen_mode), ..g },
            ),
            None => None,
        },
{
    let c = event.container;
    if fullscreen_flag(c.fullscreen_mode) {
        lemma_after_one(ov, OverlayAction::Hide);
    } else {
        let up = OverlayAction::UpdatePosition { x: c.rect.x, y: c.rect.y, width: c.rect.width };
        lemma_after_two(ov, up, OverlayAction::Show);
        assert(ov.action_fits(window_reaction(event, geo).1[0]));
    }
}

/// Events of other windows leave the remembered geometry and the overlay as
/// they are; only another window gaining focus asks for a fresh lookup.
pub proof fn lemma_other_windows_ignored(event: WindowEvent, geo: Option<HeliumGeometry>, ov: Overlay)
    requires
        !is_target(event.container.app_id),
    ensures
        window_reaction(event, geo).0 == geo,
        ov.after_actions(window_reaction(event, geo).1) == ov,
        window_reaction(event, geo).1 == (if event.change == WindowChange::Focus {
            seq![OverlayAction::RefreshFromTree]
        } else {
            Seq::<OverlayAction>::empty()
        }),
{
    if event.change == WindowChange::Focus {
        lemma_after_one(ov, OverlayAction::RefreshFromTree);
    }
}

/// Any other change of the browser window (title, floating, urgency, marks)
/// updates the remembered rectangle and keeps the overlay's visibility; a
/// shown overlay follows the new rectangle.
pub proof fn lemma_other_changes_follow(event: WindowEvent, g: HeliumGeometry, ov: Overlay)
    requires
        event.change != WindowChange::New,
        event.change != WindowChange::Move,
        event.change != WindowChange::Focus,
        event.change != WindowChange::Close,
        event.change != WindowChange::FullscreenMode,
        is_target(event.container.app_id),
        ov.actions_fit(window_reaction(event, Some(g)).1),
    ensures
        window_reaction(event, Some(g)).0 == Some(moved_to(g, event.container.rect)),
        ov.after_actions(window_reaction(event, Some(g)).1).visible == ov.visible,
        (g.visible && !g.fullscreen) ==> {
            &&& ov.after_actions(window_reaction(event, Some(g)).1).margin_left + ov.sprite_width
                + RIGHT_INSET == event.container.rect.x + event.container.rect.width
            &&& ov.after_actions(window_reaction(event, Some(g)).1).margin_top == event.container.rect.y
        },
        !(g.visible && !g.fullscreen) ==> ov.after_actions(window_reaction(event, Some(g)).1) == ov,
{
    let r = event.container.rect;
    if (g.visible && !g.fullscreen) {
        lemma_after_one(ov, OverlayAction::UpdatePosition { x: r.x, y: r.y, width: r.width });
        assert(ov.action_fits(window_reaction(event, Some(g)).1[0]));
    }
}

/// At start-up a window found is remembered and the overlay is placed at its
/// top-right corner, and shown exactly when the window wants it; without a
/// window nothing happens.
pub proof fn lemma_startup_places(found: Option<HeliumGeometry>, ov: Overlay)
    requires
        ov.actions_fit(startup_reaction(found).1),
    ensures
        startup_reaction(found).0 == found,
        found is None ==> ov.after_actions(startup_reaction(found).1) == ov,
        found matches Some(g) ==> {
            &&& ov.after_actions(startup_reaction(found).1).visible == ((g.visible && !g.fullscreen) || ov.visible)
            &&& ov.after_actions(startup_reaction(found).1).margin_left + ov.sprite_width + RIGHT_INSET
                == g.x + g.width
            &&& ov.after_actions(startup_reaction(found).1).margin_top == g.y
        },
{
    if let Some(g) = found {
        let up = OverlayAction::UpdatePosition { x: g.x, y: g.y, width: g.width };
        assert(ov.action_fits(startup_reaction(found).1[0]));
        if (g.visible && !g.fullscreen) {
            assert(seq![up].push(OverlayAction::Show) =~= seq![up, OverlayAction::Show]);
            lemma_after_two(ov, up, OverlayAction::Show);
        } else {
            lemma_after_one(ov, up);
        }
    }
}

/// A subscribed window event is decided as the window event itself, on the
/// shared remembered geometry: what is remembered afterwards is what the
/// window reaction records. In particular, when the browser window appears,
/// moves or gains focus its container's rectangle and state are remembered,
/// and when it closes nothing is remembered. A workspace event keeps the
/// remembered geometry and asks for a fresh lookup.
pub proof fn lemma_window_events_remembered(w: WindowEvent, geo: Option<HeliumGeometry>)
    ensures
        event_reaction(TrackerEvent::Window(w), geo) == window_reaction(w, geo),
        (w.change == WindowChange::New || w.change == WindowChange::Move || w.change
            == WindowChange::Focus) && (w.container.app_id matches Some(id) && id@ == seq![
            'h',
            'e',
            'l',
            'i',
            'u',
            'm',
        ]) ==> event_reaction(TrackerEvent::Window(w), geo).0 == Some(
            HeliumGeometry {
                x: w.container.rect.x,
                y: w.container.rect.y,
                width: w.container.rect.width,
                height: w.container.rect.height,
                fullscreen: w.container.fullscreen_mode matches Some(m) && m > 0,
                visible: w.container.visible != Some(false),
            },
        ),
        w.change == WindowChange::Close && (w.container.app_id matches Some(id) && id@ == seq![
            'h',
            'e',
            'l',
            'i',
            'u',
            'm',
        ]) ==> event_reaction(TrackerEvent::Window(w), geo).0 is None,
        event_reaction(TrackerEvent::Workspace, geo) == (geo, seq![OverlayAction::RefreshFromTree]),
{
}

} // verus!
