//! The gameplay loop: one falling target, a score counter and a gravity
//! scalar, stepped once per rendered frame while play is active.
//!
//! The three live pieces share one lifecycle: they are set up together when
//! play is entered or resumed and torn down together when it is paused or
//! left. Gravity rises by a fixed step on every hit and returns to its
//! baseline on a miss, so difficulty ramps without bound during a streak.

use vstd::prelude::*;

use crate::units::ADVANCE_SPEED_MAX;
use crate::units::ADVANCE_Y_MIN;
use crate::units::CLICK_BOUND;
use crate::units::GRAVITY_BASE;
use crate::units::GRAVITY_STEP;
use crate::units::HALF_SCALE;
use crate::units::MAX_DIM;
use crate::units::MAX_DT;
use crate::units::SCALE;
use crate::units::SPEED_SETTLED;
use crate::units::TARGET_Y_FLOOR;
use crate::units::bottom_y_mu;
use crate::units::fall_delta_mu;
use crate::units::half_size_mu;
use crate::units::hits_mu;
use crate::units::size_mu;
use crate::units::spawn_hi_mu;
use crate::units::spawn_lo_mu;
use crate::units::spawn_y_mu;
use crate::units::target_size;
use crate::rng::random_in_range;

verus! {

/// The one falling target: centre position in micro-pixels (origin at the
/// screen centre) and the fall-speed accumulator in milli-units.
#[derive(Clone, Copy, Debug, PartialEq, Eq, Structural)]
pub struct Target {
    pub x: i64,
    pub y: i64,
    pub speed: i64,
}

/// A click position in micro-pixels, already re-centred so that the origin
/// lies at the screen centre.
#[derive(Clone, Copy, Debug, PartialEq, Eq, Structural)]
pub struct Click {
    pub x: i64,
    pub y: i64,
}

impl Click {
    /// Re-centres a window-space cursor position (origin at the window's
    /// corner, in micro-pixels) into world space with the origin at the
    /// screen centre — the same mapping the crosshair overlay mirrors.
    pub fn from_window(width: i64, height: i64, mx: i64, my: i64) -> (c: Click)
        requires
            1 <= width <= MAX_DIM,
            1 <= height <= MAX_DIM,
            0 <= mx <= width * SCALE,
            0 <= my <= height * SCALE,
        ensures
            c.x == mx - width * HALF_SCALE,
            c.y == my - height * HALF_SCALE,
            GameSession::click_ok(c),
    {
        Click { x: mx - width * HALF_SCALE, y: my - height * HALF_SCALE }
    }
}

/// A fresh target for a `w` by `h` screen: fall speed zero, half its side
/// below the top edge, and horizontally anywhere that keeps its whole extent
/// on screen (the exact column is random).
pub open spec fn fresh_target_spec(w: int, h: int, t: Target) -> bool {
    &&& t.speed == 0
    &&& t.y == spawn_y_mu(w, h)
    &&& spawn_lo_mu(w, h) <= t.x < spawn_hi_mu(w, h)
}

/// What one full frame of active play does, given the frame delta in
/// milliseconds and the left click of this frame, if any. The target falls
/// first, the click is then tested against the fallen position, and the
/// off-screen check runs last, so a last-instant click still counts.
pub open spec fn frame_post(
    pre: GameSession,
    post: GameSession,
    dt: int,
    click: Option<Click>,
) -> bool {
    match pre.target {
        Option::None => post == pre,
        Option::Some(t) => {
            let sp = t.speed + pre.gravity;
            let ny = t.y - fall_delta_mu(sp, pre.height as int, dt);
            let hit = match click {
                Option::Some(c) => hits_mu(
                    c.x as int,
                    c.y as int,
                    t.x as int,
                    ny,
                    half_size_mu(pre.width as int, pre.height as int),
                ),
                Option::None => false,
            };
            &&& post.width == pre.width
            &&& post.height == pre.height
            &&& if hit {
                &&& post.score == pre.score + 1
                &&& post.gravity == pre.gravity + GRAVITY_STEP
                &&& post.target is Some
                &&& fresh_target_spec(pre.width as int, pre.height as int, post.target->Some_0)
            } else if ny < bottom_y_mu(pre.height as int) {
                &&& post.score == 0
                &&& post.gravity == GRAVITY_BASE
                &&& post.target is Some
                &&& fresh_target_spec(pre.width as int, pre.height as int, post.target->Some_0)
            } else {
                &&& post.score == pre.score
                &&& post.gravity == pre.gravity
                &&& post.target is Some
                &&& post.target->Some_0.x == t.x
                &&& post.target->Some_0.y == ny
                &&& post.target->Some_0.speed == sp
            }
        },
    }
}

/// The whole gameplay state for one screen: dimensions, difficulty, score
/// and the live target, if any.
#[derive(Clone, Debug)]
pub struct GameSession {
    /// Screen width in pixels.
    pub width: i64,
    /// Screen height in pixels.
    pub height: i64,
    /// Difficulty scalar in milli-units; rises with the score.
    pub gravity: i64,
    /// Hits since the last miss or teardown.
    pub score: u32,
    /// The live target, absent only outside active play.
    pub target: Option<Target>,
}

impl GameSession {
    /// The screen is a size the arithmetic of the rules accepts, and small
    /// enough that a fresh target has room to spawn (on a screen whose
    /// target would be as wide as the screen itself, the spawn rule
    /// has no column to choose from).
    pub open spec fn dims_ok(self) -> bool {
        &&& 1 <= self.width <= MAX_DIM
        &&& 1 <= self.height <= MAX_DIM
        &&& size_mu(self.width as int, self.height as int) < self.width * SCALE
    }

    /// What every reachable target satisfies: it never climbs, never leaves
    /// the horizontal band it spawned into, and never falls without bound.
    pub open spec fn target_ok(self, t: Target) -> bool {
        &&& 0 <= t.speed
        &&& TARGET_Y_FLOOR <= t.y <= self.height * HALF_SCALE
        &&& spawn_lo_mu(self.width as int, self.height as int) <= t.x
        &&& t.x < spawn_hi_mu(self.width as int, self.height as int)
    }

    /// Well-formedness: valid screen, gravity exactly the baseline plus one
    /// step per scored hit, and a sane target if one is live.
    pub open spec fn wf(self) -> bool {
        &&& self.dims_ok()
        &&& self.gravity == GRAVITY_BASE + GRAVITY_STEP * self.score
        &&& match self.target {
            Option::Some(t) => self.target_ok(t),
            Option::None => true,
        }
    }

    /// A state as the frame loop leaves it: any live target is still on
    /// screen and its speed is below the bound that surviving one
    /// off-screen check implies.
    pub open spec fn settled(self) -> bool {
        &&& self.wf()
        &&& match self.target {
            Option::Some(t) => {
                &&& t.speed <= SPEED_SETTLED
                &&& t.y >= bottom_y_mu(self.height as int)
            },
            Option::None => true,
        }
    }

    /// A fresh session: no target, baseline difficulty, zero score.
    pub fn new(width: i64, height: i64) -> (s: GameSession)
        requires
            1 <= width <= MAX_DIM,
            1 <= height <= MAX_DIM,
            size_mu(width as int, height as int) < width * SCALE,
        ensures
            s.width == width,
            s.height == height,
            s.gravity == GRAVITY_BASE,
            s.score == 0,
            s.target is None,
            s.settled(),
    {
        GameSession { width, height, gravity: GRAVITY_BASE, score: 0, target: Option::None }
    }

    /// Builds a fresh target for this screen; the column is random.
    fn fresh_target(&self) -> (t: Target)
        requires
            self.dims_ok(),
        ensures
            fresh_target_spec(self.width as int, self.height as int, t),
    {
        let size: i64 = target_size(self.width, self.height);
        let half: i64 = ((size as u64) / 2) as i64;
        let w_half: i64 = self.width * HALF_SCALE;
        let h_half: i64 = self.height * HALF_SCALE;
        let lo: i64 = -w_half + half;
        let hi: i64 = w_half - half;
        let x: i64 = random_in_range(lo, hi);
        Target { x, y: h_half - half, speed: 0 }
    }

    /// Places a fresh target at the top of the screen. The caller tears the
    /// old one down first: targets never coexist.
    pub fn spawn_target(&mut self)
        requires
            old(self).wf(),
            old(self).target is None,
        ensures
            final(self).width == old(self).width,
            final(self).height == old(self).height,
            final(self).gravity == old(self).gravity,
            final(self).score == old(self).score,
            final(self).target is Some,
            fresh_target_spec(
                old(self).width as int,
                old(self).height as int,
                final(self).target->Some_0,
            ),
            final(self).settled(),
    {
        let t = self.fresh_target();
        self.target = Option::Some(t);
        proof {
            lemma_spawn_on_screen(self.width as int, self.height as int);
        }
    }

    /// One physics step: the fall speed grows by the current gravity, then
    /// the target drops by `speed * (height / 1000) * dt` with dt in
    /// milliseconds — the time- and screen-scaled fall rule. The speed and
    /// height bounds asked of the caller are arithmetic headroom only;
    /// every state the frame loop reaches meets them with a wide margin.
    pub fn advance_physics(&mut self, dt: i64)
        requires
            old(self).wf(),
            1 <= dt <= MAX_DT,
            (match old(self).target {
                Option::Some(t) => t.speed <= ADVANCE_SPEED_MAX && t.y >= ADVANCE_Y_MIN,
                Option::None => true,
            }),
        ensures
            final(self).width == old(self).width,
            final(self).height == old(self).height,
            final(self).gravity == old(self).gravity,
            final(self).score == old(self).score,
            old(self).target is None ==> *final(self) == *old(self),
            (match old(self).target {
                Option::Some(t) => {
                    &&& final(self).target is Some
                    &&& ({
                        let n = final(self).target->Some_0;
                        &&& n.x == t.x
                        &&& n.speed == t.speed + old(self).gravity
                        &&& n.y == t.y - fall_delta_mu(
                            t.speed + old(self).gravity,
                            old(self).height as int,
                            dt as int,
                        )
                        &&& n.y < t.y
                    })
                },
                Option::None => true,
            }),
            final(self).wf(),
    {
        let tgt = self.target;
        match tgt {
            Option::Some(t) => {
                let sp: i64 = t.speed + self.gravity;
                proof {
                    assert(1000 <= sp * self.height * dt <= 300_000_000_000_000_000_000
                        && sp * self.height <= 30_000_000_000_000_000) by (nonlinear_arith)
                        requires
                            1000 <= sp <= 3_000_000_000_000,
                            1 <= self.height <= 10_000,
                            1 <= dt <= 10_000;
                }
                let prod: u128 = (sp as u128) * (self.height as u128) * (dt as u128);
                let delta: i64 = (prod / 1000) as i64;
                self.target = Option::Some(Target { x: t.x, y: t.y - delta, speed: sp });
            },
            Option::None => {},
        }
    }

    /// Whether the live target has fallen strictly below the bottom edge.
    pub open spec fn offscreen(self) -> bool {
        match self.target {
            Option::Some(t) => t.y < bottom_y_mu(self.height as int),
            Option::None => false,
        }
    }

    /// The miss penalty: a target strictly below the bottom edge is removed,
    /// score and gravity return to their baselines, and a fresh target
    /// spawns at once. Anything else is left untouched.
    pub fn reset_if_offscreen(&mut self)
        requires
            old(self).wf(),
        ensures
            final(self).width == old(self).width,
            final(self).height == old(self).height,
            !old(self).offscreen() ==> *final(self) == *old(self),
            old(self).offscreen() ==> {
                &&& final(self).score == 0
                &&& final(self).gravity == GRAVITY_BASE
                &&& final(self).target is Some
                &&& fresh_target_spec(
                    old(self).width as int,
                    old(self).height as int,
                    final(self).target->Some_0,
                )
            },
            final(self).wf(),
    {
        let tgt = self.target;
        match tgt {
            Option::Some(t) => {
                let bottom: i64 = -(self.height * HALF_SCALE);
                if t.y < bottom {
                    self.target = Option::None;
                    self.gravity = GRAVITY_BASE;
                    self.score = 0;
                    self.spawn_target();
                }
            },
            Option::None => {},
        }
    }

    /// The click coordinates are small enough for the exact distance test.
    pub open spec fn click_ok(c: Click) -> bool {
        &&& -CLICK_BOUND <= c.x <= CLICK_BOUND
        &&& -CLICK_BOUND <= c.y <= CLICK_BOUND
    }

    /// Whether a click at `c` lands on the live target: Euclidean distance
    /// from the target centre at most half the target's side.
    pub open spec fn hit_on(self, c: Click) -> bool {
        match self.target {
            Option::Some(t) => hits_mu(
                c.x as int,
                c.y as int,
                t.x as int,
                t.y as int,
                half_size_mu(self.width as int, self.height as int),
            ),
            Option::None => false,
        }
    }

    /// One left click this frame: if it lands on the live target, that
    /// target is gone, the score rises by one, gravity rises by one step and
    /// a fresh target spawns at once; otherwise nothing changes. A single
    /// click can register at most one hit.
    pub fn try_hit(&mut self, click: Click)
        requires
            old(self).wf(),
            old(self).score < u32::MAX,
            Self::click_ok(click),
        ensures
            final(self).width == old(self).width,
            final(self).height == old(self).height,
            !old(self).hit_on(click) ==> *final(self) == *old(self),
            old(self).hit_on(click) ==> {
                &&& final(self).score == old(self).score + 1
                &&& final(self).gravity == old(self).gravity + GRAVITY_STEP
                &&& final(self).target is Some
                &&& fresh_target_spec(
                    old(self).width as int,
                    old(self).height as int,
                    final(self).target->Some_0,
                )
            },
            final(self).wf(),
    {
        let tgt = self.target;
        match tgt {
            Option::Some(t) => {
                let size: i64 = target_size(self.width, self.height);
                let half: i64 = ((size as u64) / 2) as i64;
                let dx: i128 = (click.x as i128) - (t.x as i128);
                let dy: i128 = (click.y as i128) - (t.y as i128);
                let r: i128 = half as i128;
                proof {
                    assert(0 <= dx * dx <= 900_000_000_000_000_000_000
                        && 0 <= dy * dy <= 9_000_000_000_000_000_000_000_000_000_000_000_000
                        && 0 <= r * r <= 49_000_000_000_000_000_000) by (nonlinear_arith)
                        requires
                            -30_000_000_000 <= dx <= 30_000_000_000,
                            -3_000_000_000_000_000_000 <= dy <= 3_000_000_000_000_000_000,
                            0 <= r <= 7_000_000_000;
                }
                let d2: i128 = dx * dx + dy * dy;
                if d2 <= r * r {
                    self.target = Option::None;
                    self.gravity = self.gravity + GRAVITY_STEP;
                    self.score = self.score + 1;
                    self.spawn_target();
                }
            },
            Option::None => {},
        }
    }

    /// A session with the target gone and score and gravity at baseline;
    /// the teardown result when a target was live.
    pub open spec fn cleared(self) -> GameSession {
        GameSession {
            width: self.width,
            height: self.height,
            gravity: GRAVITY_BASE,
            score: 0u32,
            target: Option::None,
        }
    }

    /// What teardown leaves behind: baseline if a target was live, the very
    /// same state if none was.
    pub open spec fn despawned(self) -> GameSession {
        if self.target is Some {
            self.cleared()
        } else {
            self
        }
    }

    /// Teardown when play is paused or left: removes the live target and
    /// returns score and gravity to baseline, without spawning a
    /// replacement. With no target live it changes nothing at all.
    pub fn despawn_all(&mut self)
        requires
            old(self).wf(),
        ensures
            *final(self) == old(self).despawned(),
            final(self).target is None,
            final(self).settled(),
    {
        if self.target.is_some() {
            self.target = Option::None;
            self.gravity = GRAVITY_BASE;
            self.score = 0;
        }
    }

    /// One frame of active play: fall physics, then the click test, then
    /// the off-screen check, in the order the design fixes.
    pub fn frame(&mut self, dt: i64, click: Option<Click>)
        requires
            old(self).settled(),
            1 <= dt <= MAX_DT,
            old(self).score < u32::MAX,
            (match click {
                Option::Some(c) => Self::click_ok(c),
                Option::None => true,
            }),
        ensures
            frame_post(*old(self), *final(self), dt as int, click),
            final(self).settled(),
    {
        let ghost pre = *self;
        self.advance_physics(dt);
        let ghost mid = *self;
        match click {
            Option::Some(c) => self.try_hit(c),
            Option::None => {},
        }
        let ghost clicked = *self;
        self.reset_if_offscreen();
        proof {
            if pre.target is Some {
                lemma_spawn_on_screen(pre.width as int, pre.height as int);
                if clicked != mid {
                    // The click landed: the state holds a fresh target,
                    // which spawns on screen, so the off-screen check left
                    // it alone.
                } else {
                    // No hit: the target kept the fallen position. If it
                    // survived the off-screen check, its speed is bounded:
                    // a faster target would have crossed the whole screen.
                    let t = pre.target->Some_0;
                    let sp = t.speed + pre.gravity;
                    let h = pre.height as int;
                    if !mid.offscreen() {
                        let delta = fall_delta_mu(sp, h, dt as int);
                        assert(sp * h * (dt as int) <= 1000 * delta + 999);
                        assert(delta <= 1_000_000 * h);
                        assert(sp <= SPEED_SETTLED) by (nonlinear_arith)
                            requires
                                0 <= sp,
                                1 <= h,
                                1 <= dt,
                                sp * h * (dt as int) <= 1_000_000_000 * h + 999;
                    }
                }
            }
        }
    }
}

/// A fresh target spawns on screen: its start height lies between the
/// bottom and the top edge, because the target's side never reaches twice
/// the screen height.
proof fn lemma_spawn_on_screen(w: int, h: int)
    requires
        1 <= w <= MAX_DIM,
        1 <= h <= MAX_DIM,
    ensures
        0 <= half_size_mu(w, h),
        bottom_y_mu(h) < spawn_y_mu(w, h) <= h * HALF_SCALE,
{
    assert(0 <= (w * h * 1250) / 9 <= 1_388_889 * h) by (nonlinear_arith)
        requires
            1 <= w <= 10_000,
            1 <= h;
    assert(2 * half_size_mu(w, h) <= size_mu(w, h));
}

} // verus!
