//! State of the overlay window: sprite size, layer-shell margins and visibility.
use vstd::prelude::*;
use crate::animation::MikuPaintable;
use crate::tracker::OverlayAction;

verus! {

/// Distance kept between the sprite's right edge and the window's right edge.
pub const RIGHT_INSET: i32 = 100;

/// A dimension scaled by three quarters, rounded toward zero.
pub open spec fn scaled(v: i32) -> int {
    if v >= 0 { (3 * v) / 4 } else { -((-3 * v) / 4) }
}

/// Scales a sprite dimension by three quarters, rounding toward zero.
pub fn scale_dimension(v: i32) -> (s: i32)
    ensures
        s == scaled(v),
{
    let w: i64 = v as i64 * 3;
    let q: i64 = if w >= 0 { w / 4 } else { -((-w) / 4) };
    q as i32
}

/// Left margin that puts the sprite's right edge `RIGHT_INSET` left of the
/// window's right edge.
pub open spec fn left_margin(helium_x: int, helium_width: int, sprite_width: int) -> int {
    helium_x + helium_width - sprite_width - RIGHT_INSET
}

pub open spec fn in_i32(v: int) -> bool {
    i32::MIN <= v <= i32::MAX
}

/// Whether the left margin can be computed in `i32`, step by step.
pub open spec fn margin_fits(helium_x: int, helium_width: int, sprite_width: int) -> bool {
    &&& in_i32(helium_x + helium_width)
    &&& in_i32(helium_x + helium_width - sprite_width)
    &&& in_i32(helium_x + helium_width - sprite_width - RIGHT_INSET)
}

/// The overlay window: the size of the sprite it shows, its left and top
/// margins on the output, and whether it is shown.
#[derive(Clone, Copy, Debug, PartialEq, Eq, Structural)]
pub struct Overlay {
    pub sprite_width: i32,
    pub sprite_height: i32,
    pub margin_left: i32,
    pub margin_top: i32,
    pub visible: bool,
}

impl Overlay {
    /// The overlay placed over a window with this origin and width.
    pub open spec fn positioned(self, helium_x: i32, helium_y: i32, helium_width: i32) -> Overlay {
        Overlay {
            margin_left: left_margin(helium_x as int, helium_width as int, self.sprite_width as int) as i32,
            margin_top: helium_y,
            ..self
        }
    }

    pub open spec fn action_fits(self, action: OverlayAction) -> bool {
        match action {
            OverlayAction::UpdatePosition { x, y, width } => margin_fits(
                x as int,
                width as int,
                self.sprite_width as int,
            ),
            _ => true,
        }
    }

    /// The overlay after one action. Looking the window up again is not the
    /// overlay's business and leaves it as it is.
    pub open spec fn after_action(self, action: OverlayAction) -> Overlay {
        match action {
            OverlayAction::UpdatePosition { x, y, width } => self.positioned(x, y, width),
            OverlayAction::Show => Overlay { visible: true, ..self },
            OverlayAction::Hide => Overlay { visible: false, ..self },
            OverlayAction::RefreshFromTree => self,
        }
    }

    /// The overlay after a list of actions, in order.
    pub open spec fn after_actions(self, actions: Seq<OverlayAction>) -> Overlay
        decreases actions.len(),
    {
        if actions.len() == 0 {
            self
        } else {
            self.after_action(actions[0]).after_actions(actions.drop_first())
        }
    }

    /// Whether every placement in a list of actions fits in `i32`.
    pub open spec fn actions_fit(self, actions: Seq<OverlayAction>) -> bool {
        forall|i: int| 0 <= i < actions.len() ==> #[trigger] self.action_fits(actions[i])
    }

    /// A hidden overlay with zero margins, for a sprite scaled to three
    /// quarters of the paintable's size.
    pub fn new(paintable: &MikuPaintable) -> (o: Overlay)
        ensures
            o.sprite_width == scaled(paintable.intrinsic_width()),
            o.sprite_height == scaled(paintable.intrinsic_height()),
            o.margin_left == 0,
            o.margin_top == 0,
            !o.visible,
    {
        Overlay {
            sprite_width: scale_dimension(paintable.width()),
            sprite_height: scale_dimension(paintable.height()),
            margin_left: 0,
            margin_top: 0,
            visible: false,
        }
    }

    /// Places the overlay at the top-right of a window.
    pub fn update_position(&mut self, helium_x: i32, helium_y: i32, helium_width: i32)
        requires
            margin_fits(helium_x as int, helium_width as int, old(self).sprite_width as int),
        ensures
            *final(self) == old(self).positioned(helium_x, helium_y, helium_width),
    {
        let x = helium_x + helium_width - self.sprite_width - RIGHT_INSET;
        self.margin_left = x;
        self.margin_top = helium_y;
    }

    pub fn show(&mut self)
        ensures
            *final(self) == (Overlay { visible: true, ..*old(self) }),
    {
        self.visible = true;
    }

    pub fn hide_overlay(&mut self)
        ensures
            *final(self) == (Overlay { visible: false, ..*old(self) }),
    {
        self.visible = false;
    }

    /// Applies one action when its placement fits in `i32`; reports whether it
    /// did, and leaves the overlay unchanged when it did not.
    pub fn apply(&mut self, action: OverlayAction) -> (applied: bool)
        ensures
            applied == old(self).action_fits(action),
            applied ==> *final(self) == old(self).after_action(action),
            !applied ==> *final(self) == *old(self),
    {
        match action {
            OverlayAction::UpdatePosition { x, y, width } => {
                let sum: i64 = x as i64 + width as i64;
                let fits = i32::MIN as i64 <= sum && sum <= i32::MAX as i64
                    && i32::MIN as i64 <= sum - self.sprite_width as i64
                    && sum - self.sprite_width as i64 <= i32::MAX as i64
                    && i32::MIN as i64 <= sum - self.sprite_width as i64 - RIGHT_INSET as i64
                    && sum - self.sprite_width as i64 - RIGHT_INSET as i64 <= i32::MAX as i64;
                if fits {
                    self.update_position(x, y, width);
                }
                fits
            },
            OverlayAction::Show => {
                self.show();
                true
            },
            OverlayAction::Hide => {
                self.hide_overlay();
                true
            },
            OverlayAction::RefreshFromTree => true,
        }
    }
}

/// Scaling takes three quarters of a dimension and rounds toward zero: the
/// result times four is within three of three times the dimension, on the side
/// of zero.
pub proof fn lemma_scaled_three_quarters(v: i32)
    ensures
        v >= 0 ==> 4 * scaled(v) <= 3 * v < 4 * scaled(v) + 4,
        v < 0 ==> 4 * scaled(v) - 4 < 3 * v <= 4 * scaled(v),
        v >= 0 ==> scaled(v) >= 0,
        v <= 0 ==> scaled(v) <= 0,
{
}

} // verus!
