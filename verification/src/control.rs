//! The screen-state controller: which screen is current, as a stack, and
//! the lifecycle it drives on the gameplay state.
//!
//! The menu sits at the bottom of the stack; play is entered on top of it,
//! and pausing pushes one more entry without discarding the screen
//! underneath. Leaving or pausing play tears the target, score and gravity
//! down together; entering or resuming play sets them up together.

use vstd::prelude::*;

use crate::session::Click;
use crate::session::GameSession;
use crate::session::frame_post;
use crate::session::fresh_target_spec;
use crate::units::GRAVITY_BASE;
use crate::units::MAX_DIM;
use crate::units::MAX_DT;
use crate::units::SCALE;
use crate::units::size_mu;

verus! {

/// The screens the controller recognises. The set is closed: a transition
/// to anything else cannot be written.
#[derive(Clone, Copy, Debug, PartialEq, Eq, Structural)]
pub enum GameState {
    MainMenu,
    InGame,
    Paused,
}

/// The controller together with the gameplay state it owns: the stack of
/// screens (top = current) and the one session the screens share.
pub struct Game {
    /// The screen stack; never empty, the menu at the bottom.
    pub stack: Vec<GameState>,
    /// The gameplay state; live only while play is the current screen.
    pub session: GameSession,
}

impl Game {
    /// The current screen.
    pub open spec fn top_spec(self) -> GameState {
        self.stack@.last()
    }

    /// Controller invariant: the stack never empties and the menu is its
    /// default bottom entry; while play is current the session carries one
    /// live target; while it is not, the session is torn down to baseline.
    pub open spec fn wf(self) -> bool {
        &&& self.stack@.len() >= 1
        &&& self.stack@[0] == GameState::MainMenu
        &&& self.session.wf()
        &&& (self.top_spec() == GameState::InGame ==> self.session.settled()
            && self.session.target is Some)
        &&& (self.top_spec() != GameState::InGame ==> self.session.target is None
            && self.session.gravity == GRAVITY_BASE && self.session.score == 0)
    }

    /// A new game on the given screen: the menu alone on the stack, the
    /// session at baseline with no target.
    pub fn new(width: i64, height: i64) -> (g: Game)
        requires
            1 <= width <= MAX_DIM,
            1 <= height <= MAX_DIM,
            size_mu(width as int, height as int) < width * SCALE,
        ensures
            g.wf(),
            g.stack@.len() == 1,
            g.top_spec() == GameState::MainMenu,
            g.session.width == width,
            g.session.height == height,
            g.session.gravity == GRAVITY_BASE,
            g.session.score == 0,
            g.session.target is None,
    {
        let mut stack: Vec<GameState> = Vec::new();
        stack.push(GameState::MainMenu);
        Game { stack, session: GameSession::new(width, height) }
    }

    /// The current screen.
    pub fn top(&self) -> (s: GameState)
        requires
            self.stack@.len() >= 1,
        ensures
            s == self.top_spec(),
    {
        self.stack[self.stack.len() - 1]
    }

    /// Pushes a screen on top of the current one: the previous top is
    /// paused (play tears its pieces down), then the new screen is entered
    /// (play sets its pieces up). The menu is only ever the default bottom
    /// entry, play is entered from the menu alone, and pausing never nests.
    pub fn enter(&mut self, to: GameState)
        requires
            old(self).wf(),
            to != GameState::MainMenu,
            to == GameState::InGame ==> old(self).top_spec() == GameState::MainMenu,
            to == GameState::Paused ==> old(self).top_spec() != GameState::Paused,
        ensures
            final(self).wf(),
            final(self).stack@ == old(self).stack@.push(to),
            final(self).session.width == old(self).session.width,
            final(self).session.height == old(self).session.height,
            to != GameState::InGame && old(self).top_spec() == GameState::InGame
                ==> final(self).session == old(self).session.despawned(),
            to != GameState::InGame && old(self).top_spec() != GameState::InGame
                ==> final(self).session == old(self).session,
            to == GameState::InGame ==> {
                &&& final(self).session.gravity == GRAVITY_BASE
                &&& final(self).session.score == 0
                &&& final(self).session.target is Some
                &&& fresh_target_spec(
                    old(self).session.width as int,
                    old(self).session.height as int,
                    final(self).session.target->Some_0,
                )
            },
    {
        let prev = self.top();
        self.stack.push(to);
        if prev == GameState::InGame {
            self.session.despawn_all();
        }
        if to == GameState::InGame {
            self.session.spawn_target();
        }
    }

    /// Removes the current screen: it exits (play tears its pieces down),
    /// then the screen underneath resumes (play sets its pieces up again).
    pub fn pop(&mut self)
        requires
            old(self).wf(),
            old(self).stack@.len() >= 2,
        ensures
            final(self).wf(),
            final(self).stack@ == old(self).stack@.drop_last(),
            final(self).session.width == old(self).session.width,
            final(self).session.height == old(self).session.height,
            final(self).top_spec() == GameState::InGame ==> {
                &&& final(self).session.gravity == GRAVITY_BASE
                &&& final(self).session.score == 0
                &&& final(self).session.target is Some
                &&& fresh_target_spec(
                    old(self).session.width as int,
                    old(self).session.height as int,
                    final(self).session.target->Some_0,
                )
            },
            final(self).top_spec() != GameState::InGame && old(self).top_spec()
                == GameState::InGame ==> final(self).session == old(self).session.despawned(),
            final(self).top_spec() != GameState::InGame && old(self).top_spec()
                != GameState::InGame ==> final(self).session == old(self).session,
    {
        let removed = self.stack.pop().unwrap();
        if removed == GameState::InGame {
            self.session.despawn_all();
        }
        let now = self.top();
        if now == GameState::InGame {
            self.session.spawn_target();
        }
    }

    /// The pause key: pushes the pause screen on whatever is current, or
    /// pops it when it is already current.
    pub fn toggle_pause(&mut self)
        requires
            old(self).wf(),
        ensures
            final(self).wf(),
            final(self).session.width == old(self).session.width,
            final(self).session.height == old(self).session.height,
            old(self).top_spec() != GameState::Paused ==> {
                &&& final(self).stack@ == old(self).stack@.push(GameState::Paused)
                &&& final(self).session == old(self).session.despawned()
            },
            old(self).top_spec() == GameState::Paused ==> {
                &&& final(self).stack@ == old(self).stack@.drop_last()
                &&& (final(self).top_spec() == GameState::InGame ==> {
                    &&& final(self).session.gravity == GRAVITY_BASE
                    &&& final(self).session.score == 0
                    &&& final(self).session.target is Some
                    &&& fresh_target_spec(
                        old(self).session.width as int,
                        old(self).session.height as int,
                        final(self).session.target->Some_0,
                    )
                })
                &&& (final(self).top_spec() != GameState::InGame ==> final(self).session
                    == old(self).session)
            },
    {
        let t = self.top();
        if t == GameState::Paused {
            self.pop();
        } else {
            self.enter(GameState::Paused);
        }
    }

    /// The start control on the menu: enters play; one target spawns, score
    /// and difficulty start at baseline.
    pub fn start_game(&mut self)
        requires
            old(self).wf(),
            old(self).top_spec() == GameState::MainMenu,
        ensures
            final(self).wf(),
            final(self).stack@ == old(self).stack@.push(GameState::InGame),
            final(self).session.width == old(self).session.width,
            final(self).session.height == old(self).session.height,
            final(self).session.gravity == GRAVITY_BASE,
            final(self).session.score == 0,
            final(self).session.target is Some,
            fresh_target_spec(
                old(self).session.width as int,
                old(self).session.height as int,
                final(self).session.target->Some_0,
            ),
    {
        self.enter(GameState::InGame);
    }

    /// One rendered frame: while play is current the gameplay loop runs
    /// (fall, click test, off-screen check); any other screen leaves the
    /// session untouched.
    pub fn frame(&mut self, dt: i64, click: Option<Click>)
        requires
            old(self).wf(),
            1 <= dt <= MAX_DT,
            old(self).session.score < u32::MAX,
            (match click {
                Option::Some(c) => GameSession::click_ok(c),
                Option::None => true,
            }),
        ensures
            final(self).wf(),
            final(self).stack@ == old(self).stack@,
            old(self).top_spec() != GameState::InGame ==> final(self).session
                == old(self).session,
            old(self).top_spec() == GameState::InGame ==> frame_post(
                old(self).session,
                final(self).session,
                dt as int,
                click,
            ),
    {
        let t = self.top();
        if t == GameState::InGame {
            self.session.frame(dt, click);
        }
    }
}

} // verus!
