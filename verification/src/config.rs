//! The settings that the listener runs on.

use vstd::prelude::*;

verus! {

/// How the listener is set up.
#[derive(Debug, Clone, PartialEq, Eq)]
pub struct Settings {
    /// Simulate the monitors in place of commanding them.
    pub debug: bool,
    /// Seconds between two checks of the audio status.
    pub check_interval: u64,
    /// Seconds to wait before a "not playing" verdict is checked again;
    /// zero switches the second check off.
    pub double_check: u64,
    /// The audio system to probe, by name; without it the system is
    /// detected.
    pub audio_system: Option<String>,
    /// The file whose presence stops the listener.
    pub stop_file: String,
}

impl Settings {
    /// The name of the audio system to probe, if the settings hold one.
    pub open spec fn audio_system_name(&self) -> Option<Seq<char>> {
        match self.audio_system {
            Some(name) => Some(name@),
            None => None,
        }
    }
}

impl Default for Settings {
    /// The settings of a listener that nothing has configured.
    fn default() -> (settings: Settings)
        ensures
            !settings.debug,
            settings.check_interval == 10,
            settings.double_check == 0,
            settings.audio_system is None,
            settings.stop_file@ == "/tmp/hypridle_audio_listener_stop_file"@,
    {
        Settings {
            debug: false,
            check_interval: 10,
            double_check: 0,
            audio_system: None,
            stop_file: "/tmp/hypridle_audio_listener_stop_file".to_owned(),
        }
    }
}

/// Runs `debug_action` in debug mode and `default_action` otherwise, and
/// returns what the chosen action returned. The other action is dropped
/// unrun.
pub fn debug_do<T, F, G>(debug: bool, debug_action: F, default_action: G) -> (result: T) where
    F: FnOnce() -> T,
    G: FnOnce() -> T,

    requires
        debug ==> debug_action.requires(()),
        !debug ==> default_action.requires(()),
    ensures
        debug ==> debug_action.ensures((), result),
        !debug ==> default_action.ensures((), result),
{
    if debug {
        debug_action()
    } else {
        default_action()
    }
}

} // verus!
