//! Decisions taken on Sway window events: which geometry to remember for the
//! browser window and what to do with the overlay.
use vstd::prelude::*;
use crate::geometry::{Rect, HeliumGeometry, fullscreen_flag, is_target, is_fullscreen, app_id_is_target};

verus! {

/// Kind of change that a Sway window event reports.
#[derive(Clone, Copy, Debug, PartialEq, Eq, Structural)]
pub enum WindowChange {
    New,
    Close,
    Focus,
    Title,
    FullscreenMode,
    Move,
    Floating,
    Urgent,
    Mark,
    /// A change kind that this library does not know by name.
    Other,
}

/// The part of the container of a window event that the tracker reads.
#[derive(Debug)]
pub struct Container {
    pub app_id: Option<String>,
    pub rect: Rect,
    pub fullscreen_mode: Option<u8>,
    pub visible: Option<bool>,
}

/// A Sway window event.
#[derive(Debug)]
pub struct WindowEvent {
    pub change: WindowChange,
    pub container: Container,
}

/// A Sway event as the tracker subscribes to it.
#[derive(Debug)]
pub enum TrackerEvent {
    Window(WindowEvent),
    Workspace,
    Other,
}

/// What the overlay is asked to do, in order.
#[derive(Clone, Copy, Debug, PartialEq, Eq, Structural)]
pub enum OverlayAction {
    /// Place the overlay at the top-right of a window with this origin and width.
    UpdatePosition { x: i32, y: i32, width: i32 },
    Show,
    Hide,
    /// Look the browser window up in a fresh layout tree, then apply what was found.
    RefreshFromTree,
}

/// Actions that place the overlay over a window with this geometry, or hide it
/// when the window does not want it.
pub open spec fn placement_actions(g: HeliumGeometry) -> Seq<OverlayAction> {
    if g.wants_overlay() {
        seq![OverlayAction::UpdatePosition { x: g.x, y: g.y, width: g.width }, OverlayAction::Show]
    } else {
        seq![OverlayAction::Hide]
    }
}

/// Actions taken when a layout tree lookup reports what it found.
pub open spec fn refresh_actions(found: Option<HeliumGeometry>) -> Seq<OverlayAction> {
    match found {
        Some(g) => placement_actions(g),
        None => seq![OverlayAction::Hide],
    }
}

/// Geometry that a window event's container reports; a container without a
/// visibility counts as visible.
pub open spec fn container_geometry(c: Container) -> HeliumGeometry {
    HeliumGeometry {
        x: c.rect.x,
        y: c.rect.y,
        width: c.rect.width,
        height: c.rect.height,
        fullscreen: fullscreen_flag(c.fullscreen_mode),
        visible: match c.visible { Some(v) => v, None => true },
    }
}

/// The remembered geometry moved to a new rectangle.
pub open spec fn moved_to(g: HeliumGeometry, r: Rect) -> HeliumGeometry {
    HeliumGeometry { x: r.x, y: r.y, width: r.width, height: r.height, ..g }
}

/// The new remembered geometry and the overlay actions for a window event.
pub open spec fn window_reaction(event: WindowEvent, geo: Option<HeliumGeometry>) -> (
    Option<HeliumGeometry>,
    Seq<OverlayAction>,
) {
    let c = event.container;
    let helium = is_target(c.app_id);
    match event.change {
        WindowChange::New | WindowChange::Move | WindowChange::Focus => {
            if helium {
                let g = container_geometry(c);
                (Some(g), placement_actions(g))
            } else if event.change == WindowChange::Focus {
                (geo, seq![OverlayAction::RefreshFromTree])
            } else {
                (geo, Seq::empty())
            }
        },
        WindowChange::Close => {
            if helium {
                (None, seq![OverlayAction::Hide])
            } else {
                (geo, Seq::empty())
            }
        },
        WindowChange::FullscreenMode => {
            if helium {
                let fullscreen = fullscreen_flag(c.fullscreen_mode);
                let actions = if fullscreen {
                    seq![OverlayAction::Hide]
                } else {
                    seq![
                        OverlayAction::UpdatePosition { x: c.rect.x, y: c.rect.y, width: c.rect.width },
                        OverlayAction::Show,
                    ]
                };
                let new_geo = match geo {
                    Some(g) => Some(HeliumGeometry { fullscreen, ..g }),
                    None => None,
                };
                (new_geo, actions)
            } else {
                (geo, Seq::empty())
            }
        },
        _ => {
            if helium {
                match geo {
                    Some(g) => {
                        let g2 = moved_to(g, c.rect);
                        let actions = if !g2.fullscreen && g2.visible {
                            seq![OverlayAction::UpdatePosition { x: g2.x, y: g2.y, width: g2.width }]
                        } else {
                            Seq::empty()
                        };
                        (Some(g2), actions)
                    },
                    None => (None, Seq::empty()),
                }
            } else {
                (geo, Seq::empty())
            }
        },
    }
}

fn placement(g: HeliumGeometry) -> (actions: Vec<OverlayAction>)
    ensures
        actions@ == placement_actions(g),
{
    let mut actions: Vec<OverlayAction> = Vec::new();
    if g.visible && !g.fullscreen {
        actions.push(OverlayAction::UpdatePosition { x: g.x, y: g.y, width: g.width });
        actions.push(OverlayAction::Show);
    } else {
        actions.push(OverlayAction::Hide);
    }
    proof {
        assert(actions@ =~= placement_actions(g));
    }
    actions
}

/// Remembers the geometry that a layout tree lookup found and says how the
/// overlay follows it: placed and shown over a visible, non-fullscreen window,
/// hidden otherwise or when no window was found.
pub fn apply_geometry(geo: &mut Option<HeliumGeometry>, new_geo: Option<HeliumGeometry>) -> (actions:
    Vec<OverlayAction>)
    ensures
        *final(geo) == new_geo,
        actions@ == refresh_actions(new_geo),
{
    *geo = new_geo;
    match new_geo {
        Some(g) => placement(g),
        None => {
            let mut actions: Vec<OverlayAction> = Vec::new();
            actions.push(OverlayAction::Hide);
            proof {
                assert(actions@ =~= refresh_actions(new_geo));
            }
            actions
        },
    }
}

/// Decides on a window event: what geometry to remember for the browser window
/// and what to do with the overlay.
pub fn handle_window_event(event: &WindowEvent, geo: &mut Option<HeliumGeometry>) -> (actions: Vec<
    OverlayAction,
>)
    ensures
        (*final(geo), actions@) == window_reaction(*event, *old(geo)),
{
    let c = &event.container;
    let is_helium = app_id_is_target(&c.app_id);
    let mut actions: Vec<OverlayAction> = Vec::new();
    match event.change {
        WindowChange::New | WindowChange::Move | WindowChange::Focus => {
            if is_helium {
                let fullscreen = is_fullscreen(c.fullscreen_mode);
                let visible = match c.visible {
                    Some(v) => v,
                    None => true,
                };
                let g = HeliumGeometry {
                    x: c.rect.x,
                    y: c.rect.y,
                    width: c.rect.width,
                    height: c.rect.height,
                    fullscreen,
                    visible,
                };
                actions = placement(g);
                *geo = Some(g);
            } else if event.change == WindowChange::Focus {
                actions.push(OverlayAction::RefreshFromTree);
            }
        },
        WindowChange::Close => {
            if is_helium {
                actions.push(OverlayAction::Hide);
                *geo = None;
            }
        },
        WindowChange::FullscreenMode => {
            if is_helium {
                let fullscreen = is_fullscreen(c.fullscreen_mode);
                if fullscreen {
                    actions.push(OverlayAction::Hide);
                } else {
                    actions.push(
                        OverlayAction::UpdatePosition { x: c.rect.x, y: c.rect.y, width: c.rect.width },
                    );
                    actions.push(OverlayAction::Show);
                }
                match geo {
                    Some(g) => {
                        g.fullscreen = fullscreen;
                    },
                    None => {},
                }
            }
        },
        _ => {
            if is_helium {
                match geo {
                    Some(g) => {
                        g.x = c.rect.x;
                        g.y = c.rect.y;
                        g.width = c.rect.width;
                        g.height = c.rect.height;
                        if !g.fullscreen && g.visible {
                            actions.push(OverlayAction::UpdatePosition { x: g.x, y: g.y, width: g.width });
                        }
                    },
                    None => {},
                }
            }
        },
    }
    proof {
        assert(actions@ =~= window_reaction(*event, *old(geo)).1);
    }
    actions
}

/// The new remembered geometry and the overlay actions for any subscribed event.
pub open spec fn event_reaction(event: TrackerEvent, geo: Option<HeliumGeometry>) -> (
    Option<HeliumGeometry>,
    Seq<OverlayAction>,
) {
    match event {
        TrackerEvent::Window(w) => window_reaction(w, geo),
        TrackerEvent::Workspace => (geo, seq![OverlayAction::RefreshFromTree]),
        TrackerEvent::Other => (geo, Seq::empty()),
    }
}

/// Decides on one subscribed event: window events as `handle_window_event`
/// does, workspace events by a fresh look at the layout tree, others not at all.
pub fn handle_event(event: &TrackerEvent, geo: &mut Option<HeliumGeometry>) -> (actions: Vec<
    OverlayAction,
>)
    ensures
        (*final(geo), actions@) == event_reaction(*event, *old(geo)),
{
    match event {
        TrackerEvent::Window(w) => handle_window_event(w, geo),
        TrackerEvent::Workspace => {
            let mut actions: Vec<OverlayAction> = Vec::new();
            actions.push(OverlayAction::RefreshFromTree);
            proof {
                assert(actions@ =~= seq![OverlayAction::RefreshFromTree]);
            }
            actions
        },
        TrackerEvent::Other => Vec::new(),
    }
}

/// Geometry and actions at start-up, from the first layout tree lookup: the
/// overlay is placed over a window that was found, and shown only when the
/// window wants it; nothing is hidden.
pub open spec fn startup_reaction(found: Option<HeliumGeometry>) -> (
    Option<HeliumGeometry>,
    Seq<OverlayAction>,
) {
    match found {
        Some(g) => {
            let place = seq![OverlayAction::UpdatePosition { x: g.x, y: g.y, width: g.width }];
            (Some(g), if g.wants_overlay() { place.push(OverlayAction::Show) } else { place })
        },
        None => (None, Seq::empty()),
    }
}

/// Start-up placement from the first lookup of the browser window.
pub fn initial_placement(found: Option<HeliumGeometry>) -> (res: (Option<HeliumGeometry>, Vec<
    OverlayAction,
>))
    ensures
        (res.0, res.1@) == startup_reaction(found),
{
    let mut actions: Vec<OverlayAction> = Vec::new();
    match found {
        Some(g) => {
            actions.push(OverlayAction::UpdatePosition { x: g.x, y: g.y, width: g.width });
            if g.visible && !g.fullscreen {
                actions.push(OverlayAction::Show);
            }
            proof {
                assert(actions@ =~= startup_reaction(found).1);
            }
            (Some(g), actions)
        },
        None => {
            proof {
                assert(actions@ =~= startup_reaction(found).1);
            }
            (None, actions)
        },
    }
}

} // verus!
