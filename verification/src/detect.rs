//! Which audio system to probe: the one that the settings name, or the one
//! whose tool is installed.

use crate::audiosys::system_named;
use crate::audiosys::AudioSystem;
use crate::text::lowercase;
use vstd::prelude::*;

verus! {

/// The system that the settings ask for: the one that `audio_system` names,
/// in any mix of upper and lower case. A name of no system asks for none.
pub open spec fn configured_system(audio_system: Option<Seq<char>>) -> Option<AudioSystem> {
    match audio_system {
        Some(name) => system_named(lowercase(name)),
        None => None,
    }
}

/// The characters of a name that may be missing.
pub open spec fn name_chars(name: Option<&str>) -> Option<Seq<char>> {
    match name {
        Some(name) => Some(name@),
        None => None,
    }
}

/// The system that the installed tools point to: PipeWire where `pw-dump`
/// is found, else PulseAudio where `pactl` is found, else none.
pub open spec fn detected_system(pw_dump_found: bool, pactl_found: bool) -> AudioSystem {
    if pw_dump_found {
        AudioSystem::PipeWire
    } else if pactl_found {
        AudioSystem::PulseAudio
    } else {
        AudioSystem::NotCompatible
    }
}

/// The system to probe: the configured one, else the detected one.
pub open spec fn resolved_system(
    audio_system: Option<Seq<char>>,
    pw_dump_found: bool,
    pactl_found: bool,
) -> AudioSystem {
    match configured_system(audio_system) {
        Some(system) => system,
        None => detected_system(pw_dump_found, pactl_found),
    }
}

/// The system that the settings ask for, if they name one.
pub fn selected_system(audio_system: Option<&str>) -> (system: Option<AudioSystem>)
    ensures
        system == configured_system(name_chars(audio_system)),
{
    match audio_system {
        Some(name) => match AudioSystem::parse_name(name) {
            Ok(system) => Some(system),
            Err(_) => None,
        },
        None => None,
    }
}

/// The system that the installed tools point to.
pub fn detect_audio_system(pw_dump_found: bool, pactl_found: bool) -> (system: AudioSystem)
    ensures
        system == detected_system(pw_dump_found, pactl_found),
{
    if pw_dump_found {
        AudioSystem::PipeWire
    } else if pactl_found {
        AudioSystem::PulseAudio
    } else {
        AudioSystem::NotCompatible
    }
}

/// The system to probe, given the settings and which tools are installed.
pub fn resolve_audio_system(
    audio_system: Option<&str>,
    pw_dump_found: bool,
    pactl_found: bool,
) -> (system: AudioSystem)
    ensures
        system == resolved_system(name_chars(audio_system), pw_dump_found, pactl_found),
{
    match selected_system(audio_system) {
        Some(system) => system,
        None => detect_audio_system(pw_dump_found, pactl_found),
    }
}

/// A configured system wins over detection: where the settings name a
/// system, that system is probed whatever tools are installed.
pub proof fn lemma_configured_system_wins(
    name: Seq<char>,
    system: AudioSystem,
    pw_dump_found: bool,
    pactl_found: bool,
)
    requires
        system_named(lowercase(name)) == Some(system),
    ensures
        resolved_system(Some(name), pw_dump_found, pactl_found) == system,
{
}

/// A system is only ever detected through its own tool, and PipeWire is
/// asked for first.
pub proof fn lemma_detection_order(pw_dump_found: bool, pactl_found: bool)
    ensures
        detected_system(pw_dump_found, pactl_found) == AudioSystem::PipeWire <==> pw_dump_found,
        detected_system(pw_dump_found, pactl_found) == AudioSystem::PulseAudio <==> !pw_dump_found
            && pactl_found,
        detected_system(pw_dump_found, pactl_found) == AudioSystem::NotCompatible
            <==> !pw_dump_found && !pactl_found,
{
}

} // verus!
