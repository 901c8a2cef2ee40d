//! Frame-by-frame animation state of the sprite: which frame is shown, whether
//! a frame timer is pending, and how long to wait before the next frame.
use vstd::prelude::*;
use crate::sprite::{
    FrameData, SpriteError, SpriteFrame, SOFT_BAND, MIN_DELAY_MS,
    DEFAULT_DELAY_MS, apng_frames, decode_apng, frames_made_from, sprite_outcome,
};

verus! {

/// Width reported before any frame is known.
pub const DEFAULT_WIDTH: i32 = 240;

/// Height reported before any frame is known.
pub const DEFAULT_HEIGHT: i32 = 60;

/// The animated sprite: its frames, the delay after each, the frame shown and
/// whether a timer for the next frame is pending.
pub struct MikuPaintable {
    frames: Vec<SpriteFrame>,
    delays_ms: Vec<u64>,
    current_frame: usize,
    timer_pending: bool,
}

impl MikuPaintable {
    pub closed spec fn frames(self) -> Seq<SpriteFrame> {
        self.frames@
    }

    pub closed spec fn delays(self) -> Seq<u64> {
        self.delays_ms@
    }

    /// Index of the frame shown.
    pub closed spec fn current(self) -> int {
        self.current_frame as int
    }

    /// Whether a timer for the next frame is pending.
    pub closed spec fn pending(self) -> bool {
        self.timer_pending
    }

    pub open spec fn frame_count(self) -> nat {
        self.frames().len()
    }

    /// One delay per frame, none under the minimum, and the frame shown is a
    /// frame of the sprite (or the first slot when there are none).
    pub open spec fn wf(self) -> bool {
        &&& self.delays().len() == self.frame_count()
        &&& forall|i: int| 0 <= i < self.delays().len() ==> #[trigger] self.delays()[i] >= MIN_DELAY_MS
        &&& 0 <= self.current()
        &&& (self.frame_count() == 0 ==> self.current() == 0)
        &&& (self.frame_count() > 0 ==> self.current() < self.frame_count())
    }

    /// Delay before leaving the frame shown: its own delay, or the default
    /// when it has none.
    pub open spec fn next_delay(self) -> u64 {
        if 0 <= self.current() < self.delays().len() {
            self.delays()[self.current()]
        } else {
            DEFAULT_DELAY_MS
        }
    }

    /// The same sprite with a given frame shown and timer state.
    pub closed spec fn with_state(self, current: int, pending: bool) -> Self {
        MikuPaintable { current_frame: current as usize, timer_pending: pending, ..self }
    }

    /// State after a frame timer fires: the next frame, cyclically, is shown and
    /// a timer for it is pending. Without frames nothing changes.
    pub open spec fn ticked(self) -> Self {
        if self.frame_count() == 0 {
            self
        } else {
            self.with_state((self.current() + 1) % (self.frame_count() as int), true)
        }
    }

    /// State after `k` frame timers fire in a row.
    pub open spec fn ticked_n(self, k: nat) -> Self
        decreases k,
    {
        if k == 0 {
            self
        } else {
            self.ticked_n((k - 1) as nat).ticked()
        }
    }

    /// Outcome of starting the animation: nothing when a timer is already
    /// pending or there is at most one frame; otherwise a timer is scheduled with
    /// the delay of the frame shown.
    pub open spec fn start_outcome(self) -> (Self, Option<u64>) {
        if self.pending() || self.frame_count() <= 1 {
            (self, None)
        } else {
            (self.with_state(self.current(), true), Some(self.next_delay()))
        }
    }

    pub proof fn lemma_with_state(self, current: int, pending: bool)
        requires
            0 <= current <= usize::MAX,
        ensures
            self.with_state(current, pending).frames() == self.frames(),
            self.with_state(current, pending).delays() == self.delays(),
            self.with_state(current, pending).current() == current,
            self.with_state(current, pending).pending() == pending,
    {
    }

    /// Decodes the sprite into a paintable that shows its first frame with no
    /// timer pending.
    pub fn new(sprite: &[u8], soft_alpha: &Vec<u8>) -> (res: Result<Self, SpriteError>)
        requires
            soft_alpha.len() == SOFT_BAND,
        ensures
            match res {
                Ok(p) => {
                    &&& p.wf()
                    &&& p.current() == 0
                    &&& !p.pending()
                    &&& apng_frames(sprite@) matches Ok(fs)
                    &&& fs.len() > 0
                    &&& frames_made_from(p.frames(), p.delays(), fs, soft_alpha@)
                },
                Err(e) => sprite_outcome(Err(e), apng_frames(sprite@), soft_alpha@),
            },
    {
        match decode_apng(sprite, soft_alpha) {
            Ok(data) => {
                let FrameData { frames, delays_ms } = data;
                let p = MikuPaintable { frames, delays_ms, current_frame: 0, timer_pending: false };
                proof {
                    assert forall|i: int| 0 <= i < p.delays().len() implies #[trigger] p.delays()[i]
                        >= MIN_DELAY_MS by {
                        let fs = apng_frames(sprite@)->Ok_0;
                        assert(p.frames()[i].width == fs[i].2);
                        assert(p.delays()[i] == crate::sprite::frame_delay(fs[i].0, fs[i].1));
                    }
                }
                Ok(p)
            },
            Err(e) => Err(e),
        }
    }

    /// Number of frames.
    pub fn n_frames(&self) -> (n: usize)
        ensures
            n == self.frame_count(),
    {
        self.frames.len()
    }

    /// Index of the frame shown.
    pub fn current_frame(&self) -> (i: usize)
        ensures
            i == self.current(),
    {
        self.current_frame
    }

    /// Whether a timer for the next frame is pending.
    pub fn timer_pending(&self) -> (b: bool)
        ensures
            b == self.pending(),
    {
        self.timer_pending
    }

    /// The frames, for turning into textures.
    pub fn frames_ref(&self) -> (f: &Vec<SpriteFrame>)
        ensures
            f@ == self.frames(),
    {
        &self.frames
    }

    /// Width of the first frame, or the default width without frames.
    pub open spec fn intrinsic_width(self) -> i32 {
        if self.frame_count() > 0 { self.frames()[0].width as i32 } else { DEFAULT_WIDTH }
    }

    /// Height of the first frame, or the default height without frames.
    pub open spec fn intrinsic_height(self) -> i32 {
        if self.frame_count() > 0 { self.frames()[0].height as i32 } else { DEFAULT_HEIGHT }
    }

    /// Width of the first frame, or the default width without frames.
    pub fn width(&self) -> (w: i32)
        ensures
            w == self.intrinsic_width(),
    {
        if self.frames.len() > 0 {
            self.frames[0].width as i32
        } else {
            DEFAULT_WIDTH
        }
    }

    /// Height of the first frame, or the default height without frames.
    pub fn height(&self) -> (h: i32)
        ensures
            h == self.intrinsic_height(),
    {
        if self.frames.len() > 0 {
            self.frames[0].height as i32
        } else {
            DEFAULT_HEIGHT
        }
    }

    fn schedule_next_frame(&mut self) -> (delay: u64)
        requires
            old(self).wf(),
        ensures
            *final(self) == old(self).with_state(old(self).current(), true),
            final(self).wf(),
            delay == old(self).next_delay(),
            delay >= MIN_DELAY_MS,
    {
        let delay = if self.current_frame < self.delays_ms.len() {
            self.delays_ms[self.current_frame]
        } else {
            DEFAULT_DELAY_MS
        };
        self.timer_pending = true;
        delay
    }

    /// Starts the animation. Returns the delay of the timer to schedule, or
    /// `None` when a timer is already pending or there is at most one frame.
    pub fn start_animation(&mut self) -> (delay: Option<u64>)
        requires
            old(self).wf(),
        ensures
            final(self).wf(),
            (*final(self), delay) == old(self).start_outcome(),
            delay matches Some(d) ==> d >= MIN_DELAY_MS,
    {
        if self.timer_pending || self.frames.len() <= 1 {
            return None;
        }
        Some(self.schedule_next_frame())
    }

    /// Stops the animation. Returns whether a timer was pending, which the
    /// caller then removes.
    pub fn stop_animation(&mut self) -> (was_pending: bool)
        requires
            old(self).wf(),
        ensures
            final(self).wf(),
            was_pending == old(self).pending(),
            *final(self) == old(self).with_state(old(self).current(), false),
    {
        let was_pending = self.timer_pending;
        self.timer_pending = false;
        was_pending
    }

    /// A frame timer fired. Without frames nothing changes and `None` is
    /// returned. Otherwise the next frame, cyclically, is shown, and the delay
    /// of the timer to schedule for it is returned; the caller redraws.
    pub fn advance_frame(&mut self) -> (delay: Option<u64>)
        requires
            old(self).wf(),
        ensures
            final(self).wf(),
            *final(self) == old(self).ticked(),
            delay == if old(self).frame_count() == 0 { None } else { Some(final(self).next_delay()) },
            delay matches Some(d) ==> d >= MIN_DELAY_MS,
    {
        let n = self.frames.len();
        if n == 0 {
            return None;
        }
        self.current_frame = (self.current_frame + 1) % n;
        self.timer_pending = false;
        Some(self.schedule_next_frame())
    }
}

proof fn lemma_ticks_advance(p: MikuPaintable, k: nat)
    requires
        p.wf(),
        p.frame_count() > 0,
    ensures
        p.ticked_n(k).wf(),
        p.ticked_n(k).frames() == p.frames(),
        p.ticked_n(k).delays() == p.delays(),
        p.ticked_n(k).current() == (p.current() + k) % (p.frame_count() as int),
        k > 0 ==> p.ticked_n(k).pending(),
    decreases k,
{
    let n = p.frame_count() as int;
    if k == 0 {
        vstd::arithmetic::div_mod::lemma_small_mod(p.current() as nat, n as nat);
    } else {
        lemma_ticks_advance(p, (k - 1) as nat);
        let q = p.ticked_n((k - 1) as nat);
        let a = p.current() + k - 1;
        assert(n <= usize::MAX) by {
            assert(p.frames@.len() == p.frames.len());
        }
        q.lemma_with_state((q.current() + 1) % n, true);
        assert((a % n + 1) % n == (a + 1) % n) by {
            if n == 1 {
                assert((a % 1 + 1) % 1 == 0);
                assert((a + 1) % 1 == 0);
            } else {
                vstd::arithmetic::div_mod::lemma_small_mod(1, n as nat);
                vstd::arithmetic::div_mod::lemma_add_mod_noop(a, 1, n);
            }
        }
    }
}

/// The animation cycles through all frames in order: after `k` frame timers
/// fire, frame `(c + k) mod n` is shown, a timer is pending, the frames and
/// delays are unchanged; after `n` timers the starting frame shows again.
pub proof fn lemma_frames_cycle(p: MikuPaintable, k: nat)
    requires
        p.wf(),
        p.frame_count() > 0,
    ensures
        p.ticked_n(k).wf(),
        p.ticked_n(k).frames() == p.frames(),
        p.ticked_n(k).delays() == p.delays(),
        p.ticked_n(k).current() == (p.current() + k) % (p.frame_count() as int),
        k > 0 ==> p.ticked_n(k).pending(),
        p.ticked_n(p.frame_count()).current() == p.current(),
{
    let n = p.frame_count() as int;
    lemma_ticks_advance(p, k);
    lemma_ticks_advance(p, p.frame_count());
    vstd::arithmetic::div_mod::lemma_add_mod_noop(p.current(), n, n);
    vstd::arithmetic::div_mod::lemma_mod_self_0(n);
    vstd::arithmetic::div_mod::lemma_small_mod(p.current() as nat, n as nat);
}

/// Starting the animation twice does no more than starting it once.
pub proof fn lemma_start_idempotent(p: MikuPaintable)
    requires
        p.wf(),
    ensures
        p.start_outcome().0.start_outcome() == (p.start_outcome().0, None::<u64>),
{
    if !(p.pending() || p.frame_count() <= 1) {
        assert(p.current() <= usize::MAX);
        p.lemma_with_state(p.current(), true);
    }
}

/// Starting an animation of several frames with no timer pending schedules a
/// timer with the delay of the frame shown and leaves that frame shown;
/// otherwise starting does nothing.
pub proof fn lemma_start_schedules_current_delay(p: MikuPaintable)
    requires
        p.wf(),
    ensures
        !p.pending() && p.frame_count() > 1 ==> {
            &&& p.start_outcome().1 == Some(p.delays()[p.current()])
            &&& p.start_outcome().0.pending()
            &&& p.start_outcome().0.current() == p.current()
            &&& p.start_outcome().0.frames() == p.frames()
            &&& p.start_outcome().0.delays() == p.delays()
        },
        p.pending() || p.frame_count() <= 1 ==> p.start_outcome() == (p, None::<u64>),
{
    if !p.pending() && p.frame_count() > 1 {
        assert(p.current() <= usize::MAX);
        p.lemma_with_state(p.current(), true);
    }
}

} // verus!
