//! Core of a small reflex game: a single target falls from the top of the
//! screen and must be clicked before it reaches the bottom. The library owns
//! the screen-state stack (menu, play, pause) and the per-frame gameplay
//! rules: spawning, fall physics, click hit-testing, scoring and the
//! difficulty ramp. Rendering, windowing and input belong to the host.

pub mod config;
pub mod control;
pub mod laws;
mod rng;
pub mod session;
pub mod units;
