//! Laws that relate several operations of the gameplay loop, proved once
//! and for all over the contracts the operations publish.

use vstd::prelude::*;

use crate::session::Click;
use crate::session::GameSession;
use crate::session::Target;
use crate::session::frame_post;
use crate::session::fresh_target_spec;
use crate::units::GRAVITY_BASE;
use crate::units::HALF_SCALE;
use crate::units::MAX_DIM;
use crate::units::bottom_y_mu;
use crate::units::fall_delta_mu;
use crate::units::half_size_mu;

verus! {

/// Law: a fresh target lies wholly on screen, for every screen size the
/// session accepts — its horizontal extent keeps within the side edges,
/// it starts half its side below the top edge, and above the bottom edge.
pub proof fn lemma_fresh_target_on_screen(w: int, h: int, t: Target)
    requires
        1 <= w <= MAX_DIM,
        1 <= h <= MAX_DIM,
        fresh_target_spec(w, h, t),
    ensures
        -(w * HALF_SCALE) <= t.x - half_size_mu(w, h),
        t.x + half_size_mu(w, h) < w * HALF_SCALE,
        t.y == h * HALF_SCALE - half_size_mu(w, h),
        bottom_y_mu(h) < t.y,
{
    assert(0 <= (w * h * 1250) / 9 <= 1_388_889 * h) by (nonlinear_arith)
        requires
            1 <= w <= 10_000,
            1 <= h;
}

/// The live target would still be on screen after falling for one frame of
/// `dt` milliseconds: the frame is not a miss.
pub open spec fn survives_fall(s: GameSession, dt: int) -> bool {
    match s.target {
        Option::Some(t) => t.y - fall_delta_mu(
            t.speed + s.gravity,
            s.height as int,
            dt,
        ) >= bottom_y_mu(s.height as int),
        Option::None => false,
    }
}

/// Law: teardown is idempotent. Tearing the session down a second time
/// changes nothing, because the first teardown leaves no live target and
/// score and gravity already at baseline.
pub proof fn lemma_despawn_idempotent(s: GameSession)
    ensures
        s.despawned().despawned() == s.despawned(),
{
}

/// Law: across any run of frames with no click and no miss, gravity and
/// the score stay constant and the target keeps falling — its height
/// strictly decreases from each frame to the next.
///
/// `states` are the session states at successive frame boundaries, each
/// step related to the next by the frame contract with no click; gravity
/// starts at or above its baseline, as it does in every reachable state.
pub proof fn lemma_quiet_run(states: Seq<GameSession>, dt: int)
    requires
        states.len() >= 1,
        1 <= dt,
        states[0].target is Some,
        states[0].target->Some_0.speed >= 0,
        states[0].gravity >= GRAVITY_BASE,
        states[0].height >= 1,
        forall|i: int| 0 <= i < states.len() - 1 ==> survives_fall(#[trigger] states[i], dt),
        forall|i: int|
            0 <= i < states.len() - 1 ==> frame_post(
                #[trigger] states[i],
                states[i + 1],
                dt,
                Option::<Click>::None,
            ),
    ensures
        forall|i: int| 0 <= i < states.len() ==> (#[trigger] states[i]).target is Some,
        forall|i: int|
            0 <= i < states.len() ==> (#[trigger] states[i]).gravity == states[0].gravity,
        forall|i: int| 0 <= i < states.len() ==> (#[trigger] states[i]).score == states[0].score,
        forall|i: int|
            0 <= i < states.len() - 1 ==> (#[trigger] states[i + 1]).target->Some_0.y
                < states[i].target->Some_0.y,
    decreases states.len(),
{
    if states.len() > 1 {
        let s0 = states[0];
        let s1 = states[1];
        assert(survives_fall(s0, dt));
        assert(frame_post(s0, s1, dt, Option::<Click>::None));
        let t = s0.target->Some_0;
        let sp = t.speed + s0.gravity;
        assert(sp * s0.height * dt >= 1000) by (nonlinear_arith)
            requires
                sp >= 1000,
                s0.height >= 1,
                dt >= 1;
        assert(fall_delta_mu(sp, s0.height as int, dt) >= 1);
        assert(s1.target->Some_0.y < t.y);

        let tail = states.subrange(1, states.len() as int);
        assert(forall|i: int|
            0 <= i < tail.len() - 1 ==> survives_fall(#[trigger] tail[i], dt)) by {
            assert(forall|i: int|
                0 <= i < tail.len() - 1 ==> tail[i] == states[i + 1] && survives_fall(
                    #[trigger] states[i + 1],
                    dt,
                ));
        }
        assert(forall|i: int|
            0 <= i < tail.len() - 1 ==> frame_post(
                #[trigger] tail[i],
                tail[i + 1],
                dt,
                Option::<Click>::None,
            )) by {
            assert(forall|i: int|
                0 <= i < tail.len() - 1 ==> tail[i] == states[i + 1] && tail[i + 1] == states[
                    i + 2
                ] && frame_post(#[trigger] states[i + 1], states[i + 2], dt, Option::<Click>::None));
        }
        lemma_quiet_run(tail, dt);
        assert(forall|i: int|
            1 <= i < states.len() ==> states[i] == tail[i - 1] && (#[trigger] states[i]).target
                is Some && states[i].gravity == tail[0].gravity && states[i].score
                == tail[0].score);
        assert(forall|i: int|
            1 <= i < states.len() - 1 ==> states[i + 1] == tail[i] && states[i] == tail[i - 1]
                && (#[trigger] states[i + 1]).target->Some_0.y < states[i].target->Some_0.y);
    }
}

} // verus!
