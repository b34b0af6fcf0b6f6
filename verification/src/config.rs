//! The one persisted setting: the fullscreen preference, read once at
//! startup and written back whenever the user flips it on the pause screen.
//! The host does the reading and writing; the decision logic lives here.

use vstd::prelude::*;

verus! {

/// The persisted configuration record.
#[derive(Clone, Copy, Debug, PartialEq, Eq, Structural)]
pub struct Config {
    /// Whether the window should cover the whole screen.
    pub fullscreen: bool,
}

impl Config {
    /// The fullscreen button on the pause screen: flips the preference;
    /// the flipped record is what the host persists.
    pub fn toggled(&self) -> (c: Config)
        ensures
            c.fullscreen == !self.fullscreen,
    {
        Config { fullscreen: !self.fullscreen }
    }
}

} // verus!
