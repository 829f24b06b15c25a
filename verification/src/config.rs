//! Persisted applet configuration.

use vstd::prelude::*;

verus! {

/// The maximum volume percentage used when the stored configuration names none.
pub fn default_max_volume() -> (v: u32)
    ensures
        v == 150,
{
    150
}

/// Persisted configuration of the applet.
#[derive(Debug, Clone, PartialEq, Eq)]
pub struct Config {
    /// Whether dark mode is enabled.
    pub dark_mode: bool,
    /// Whether night light (warm color shift) is enabled.
    pub night_light: bool,
    /// Whether do-not-disturb mode is enabled.
    pub do_not_disturb: bool,
    /// Screenshot command to execute.
    pub screenshot_command: String,
    /// Maximum volume percentage limit.
    pub max_volume: u32,
}

impl Config {
    /// The configuration every fresh installation starts from.
    pub open spec fn is_default(self) -> bool {
        &&& !self.dark_mode
        &&& !self.night_light
        &&& !self.do_not_disturb
        &&& self.screenshot_command@ == Seq::<char>::empty()
        &&& self.max_volume == 150
    }
}

impl Default for Config {
    fn default() -> (c: Self)
        ensures
            c.is_default(),
    {
        Config {
            dark_mode: false,
            night_light: false,
            do_not_disturb: false,
            screenshot_command: String::new(),
            max_volume: default_max_volume(),
        }
    }
}

} // verus!
