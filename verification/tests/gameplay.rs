use falling_target::session::Click;
use falling_target::session::GameSession;
use falling_target::session::Target;
use falling_target::units::target_size;

const SPAWN_Y_800X600: i64 = 266_666_667;
const HALF_800X600: i64 = 33_333_333;

fn live_target(s: &GameSession) -> Target {
    s.target.expect("a target should be live")
}

#[test]
fn target_size_matches_rule() {
    // (800 / 30) * (600 / 30) / 8 pixels = 66.666666 pixels, in micro-pixels.
    assert_eq!(target_size(800, 600), 66_666_666);
    // Smallest screen: 1 * 1 * 1250 / 9 micro-pixels.
    assert_eq!(target_size(1, 1), 138);
}

#[test]
fn spawn_places_target_on_screen() {
    for _ in 0..64 {
        let mut s = GameSession::new(800, 600);
        s.spawn_target();
        let t = live_target(&s);
        assert_eq!(t.speed, 0);
        assert_eq!(t.y, SPAWN_Y_800X600);
        assert!(t.x - HALF_800X600 >= -400_000_000);
        assert!(t.x + HALF_800X600 < 400_000_000);
    }
}

#[test]
fn spawn_places_target_on_screen_when_target_nearly_fills_screen() {
    // 10000 x 7199 is the extreme the spawn rule still accepts: the target
    // is 9998.6 pixels wide on a 10000 pixel screen.
    let mut s = GameSession::new(10_000, 7199);
    s.spawn_target();
    let t = live_target(&s);
    assert_eq!(target_size(10_000, 7199), 9_998_611_111);
    assert!(t.x - 9_998_611_111 / 2 >= -5_000_000_000);
    assert!(t.x + 9_998_611_111 / 2 < 5_000_000_000);
}

#[test]
fn quiet_frames_keep_score_and_gravity_and_fall() {
    let mut s = GameSession::new(800, 600);
    s.spawn_target();
    let mut prev_y = live_target(&s).y;
    for _ in 0..100 {
        s.frame(16, None);
        let t = live_target(&s);
        assert!(t.y < prev_y);
        assert_eq!(s.gravity, 1000);
        assert_eq!(s.score, 0);
        prev_y = t.y;
    }
}

#[test]
fn quiet_frames_fall_on_smallest_screen() {
    // Even at 1 x 1 pixels and 1 ms frames the fall is strict.
    let mut s = GameSession::new(1, 1);
    s.spawn_target();
    let mut prev_y = live_target(&s).y;
    for _ in 0..5 {
        s.frame(1, None);
        let t = live_target(&s);
        assert!(t.y < prev_y);
        prev_y = t.y;
    }
}

#[test]
fn click_on_centre_scores_and_respawns() {
    let mut s = GameSession::new(800, 600);
    s.spawn_target();
    s.advance_physics(16);
    let t = live_target(&s);
    s.try_hit(Click { x: t.x, y: t.y });
    assert_eq!(s.score, 1);
    assert_eq!(s.gravity, 1100);
    let fresh = live_target(&s);
    assert_eq!(fresh.speed, 0);
    assert_eq!(fresh.y, SPAWN_Y_800X600);
}

#[test]
fn click_on_rim_still_scores() {
    // Distance exactly the half-side counts as a hit.
    let mut s = GameSession::new(800, 600);
    s.spawn_target();
    let t = live_target(&s);
    s.try_hit(Click { x: t.x + HALF_800X600, y: t.y });
    assert_eq!(s.score, 1);
    assert_eq!(s.gravity, 1100);
}

#[test]
fn click_beside_target_changes_nothing() {
    let mut s = GameSession::new(800, 600);
    s.spawn_target();
    let before = live_target(&s);
    s.try_hit(Click { x: before.x, y: before.y - HALF_800X600 - 1 });
    assert_eq!(s.score, 0);
    assert_eq!(s.gravity, 1000);
    let after = live_target(&s);
    assert_eq!(after, before);
}

#[test]
fn two_hits_ramp_gravity_twice() {
    let mut s = GameSession::new(800, 600);
    s.spawn_target();
    for expected in 1..=2u32 {
        let t = live_target(&s);
        s.try_hit(Click { x: t.x, y: t.y });
        assert_eq!(s.score, expected);
        assert_eq!(s.gravity, 1000 + 100 * i64::from(expected));
    }
}

#[test]
fn missed_target_resets_score_and_gravity() {
    let mut s = GameSession::new(800, 600);
    s.spawn_target();
    // Bank two hits so the reset is visible.
    for _ in 0..2 {
        let t = live_target(&s);
        s.try_hit(Click { x: t.x, y: t.y });
    }
    assert_eq!(s.score, 2);
    let mut reset_seen = false;
    for _ in 0..2000 {
        let before = live_target(&s).y;
        s.frame(16, None);
        let t = live_target(&s);
        if t.y > before {
            // Only a respawn moves the target up: the miss fired.
            assert_eq!(s.score, 0);
            assert_eq!(s.gravity, 1000);
            assert_eq!(t.speed, 0);
            assert_eq!(t.y, SPAWN_Y_800X600);
            reset_seen = true;
            break;
        }
        assert!(t.y >= -300_000_000);
    }
    assert!(reset_seen, "the target should have reached the bottom");
}

#[test]
fn frame_by_frame_fall_matches_accumulation() {
    // End to end on an 800 x 600 screen with 16 ms frames: the target
    // starts half its side below the top edge and every later height
    // follows by accumulating speed and dropping speed-scaled steps.
    let mut s = GameSession::new(800, 600);
    s.spawn_target();
    let first = live_target(&s);
    assert_eq!(first.y, SPAWN_Y_800X600);
    let mut expected_y = first.y;
    let mut expected_speed: i64 = 0;
    loop {
        expected_speed += 1000;
        expected_y -= expected_speed * 600 * 16 / 1000;
        if expected_y < -300_000_000 {
            break;
        }
        s.frame(16, None);
        let t = live_target(&s);
        assert_eq!(t.y, expected_y);
        assert_eq!(t.speed, expected_speed);
    }
    // The frame on which the accumulated fall crosses the bottom edge is
    // the miss: everything returns to baseline and a fresh target spawns.
    s.frame(16, None);
    let t = live_target(&s);
    assert_eq!(s.score, 0);
    assert_eq!(s.gravity, 1000);
    assert_eq!(t.speed, 0);
    assert_eq!(t.y, SPAWN_Y_800X600);
}

#[test]
fn despawn_all_tears_down_and_is_idempotent() {
    let mut s = GameSession::new(800, 600);
    s.spawn_target();
    let t = live_target(&s);
    s.try_hit(Click { x: t.x, y: t.y });
    assert_eq!(s.score, 1);
    s.despawn_all();
    assert!(s.target.is_none());
    assert_eq!(s.score, 0);
    assert_eq!(s.gravity, 1000);
    // A second teardown with no target present changes nothing.
    s.despawn_all();
    assert!(s.target.is_none());
    assert_eq!(s.score, 0);
    assert_eq!(s.gravity, 1000);
}

#[test]
fn despawn_all_without_target_is_a_no_op() {
    let mut s = GameSession {
        width: 800,
        height: 600,
        gravity: 1300,
        score: 3,
        target: None,
    };
    s.despawn_all();
    assert_eq!(s.gravity, 1300);
    assert_eq!(s.score, 3);
    assert!(s.target.is_none());
}
