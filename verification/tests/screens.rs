use falling_target::config::Config;
use falling_target::control::Game;
use falling_target::control::GameState;
use falling_target::session::Click;

fn game_in_play() -> Game {
    let mut g = Game::new(800, 600);
    g.start_game();
    g
}

#[test]
fn new_game_sits_on_the_menu() {
    let g = Game::new(800, 600);
    assert_eq!(g.top(), GameState::MainMenu);
    assert_eq!(g.stack.len(), 1);
    assert!(g.session.target.is_none());
    assert_eq!(g.session.gravity, 1000);
    assert_eq!(g.session.score, 0);
}

#[test]
fn starting_play_spawns_one_target() {
    let g = game_in_play();
    assert_eq!(g.top(), GameState::InGame);
    assert_eq!(g.stack.len(), 2);
    let t = g.session.target.expect("play should have a target");
    assert_eq!(t.speed, 0);
    assert_eq!(t.y, 266_666_667);
    assert_eq!(g.session.score, 0);
    assert_eq!(g.session.gravity, 1000);
}

#[test]
fn pausing_play_tears_down_without_respawn() {
    let mut g = game_in_play();
    // Score a hit so the teardown is visible.
    let t = g.session.target.unwrap();
    g.frame(16, Some(Click { x: t.x, y: t.y - 9600 }));
    assert_eq!(g.session.score, 1);
    g.toggle_pause();
    assert_eq!(g.top(), GameState::Paused);
    assert!(g.session.target.is_none());
    assert_eq!(g.session.gravity, 1000);
    assert_eq!(g.session.score, 0);
}

#[test]
fn resuming_play_spawns_exactly_one_target() {
    let mut g = game_in_play();
    g.toggle_pause();
    assert!(g.session.target.is_none());
    g.toggle_pause();
    assert_eq!(g.top(), GameState::InGame);
    let t = g.session.target.expect("resume should respawn");
    assert_eq!(t.speed, 0);
    assert_eq!(t.y, 266_666_667);
    assert_eq!(g.session.score, 0);
    assert_eq!(g.session.gravity, 1000);
}

#[test]
fn pause_nests_over_the_menu_too() {
    let mut g = Game::new(800, 600);
    g.toggle_pause();
    assert_eq!(g.top(), GameState::Paused);
    assert!(g.session.target.is_none());
    g.toggle_pause();
    assert_eq!(g.top(), GameState::MainMenu);
    assert_eq!(g.stack.len(), 1);
}

#[test]
fn frames_off_play_leave_the_session_alone() {
    let mut g = Game::new(800, 600);
    g.frame(16, Some(Click { x: 0, y: 0 }));
    assert!(g.session.target.is_none());
    assert_eq!(g.session.score, 0);
    let mut paused = game_in_play();
    paused.toggle_pause();
    paused.frame(16, Some(Click { x: 0, y: 0 }));
    assert!(paused.session.target.is_none());
    assert_eq!(paused.session.score, 0);
}

#[test]
fn play_frames_run_the_gameplay_loop() {
    let mut g = game_in_play();
    let before = g.session.target.unwrap().y;
    g.frame(16, None);
    let t = g.session.target.unwrap();
    assert_eq!(t.y, before - 9600);
    assert_eq!(t.speed, 1000);
}

#[test]
fn window_cursor_is_recentred() {
    // The window centre maps onto the world origin, as the crosshair does.
    let c = Click::from_window(800, 600, 400_000_000, 300_000_000);
    assert_eq!(c.x, 0);
    assert_eq!(c.y, 0);
    let corner = Click::from_window(800, 600, 0, 0);
    assert_eq!(corner.x, -400_000_000);
    assert_eq!(corner.y, -300_000_000);
}

#[test]
fn fullscreen_toggle_flips_the_preference() {
    let c = Config { fullscreen: false };
    let on = c.toggled();
    assert!(on.fullscreen);
    assert!(!on.toggled().fullscreen);
}
