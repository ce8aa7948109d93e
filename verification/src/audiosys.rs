//! The vocabulary of the listener: audio systems, probe verdicts, monitor
//! power states and the errors a probe can end in.

use crate::text::to_lowercase;
use crate::text::lowercase;
use crate::text::same_text;
use vstd::prelude::*;
use vstd::string::StringExecFns;

verus! {

/// The audio stack a status probe talks to.
#[derive(Debug, Clone, Copy, PartialEq, Eq, Structural)]
pub enum AudioSystem {
    PipeWire,
    PulseAudio,
    NotCompatible,
}

/// What one probe of the audio stack found.
#[derive(Debug, Clone, Copy, PartialEq, Eq, Structural)]
pub enum AudioStatus {
    Playing,
    NotPlaying,
}

/// The power state that a monitor operation aimed for.
#[derive(Debug, Clone, Copy, PartialEq, Eq, Structural)]
pub enum MonitorStatus {
    MonitorOn,
    MonitorOff,
}

/// Why a probe gave no verdict. Each kind carries a message for the reader.
#[derive(Debug, Clone, PartialEq, Eq)]
pub enum AudioListenerError {
    /// The tool is there but could not be run.
    CommandFailed(String),
    /// A tool that the probe needs is not installed.
    MissingCommand(String),
    /// The tool's output is not what the probe can read.
    InvalidOutput(String),
}

/// What an [`AudioListenerError`] stands for: its kind and its message.
pub enum ErrorModel {
    CommandFailed(Seq<char>),
    MissingCommand(Seq<char>),
    InvalidOutput(Seq<char>),
}

impl ErrorModel {
    /// The message that the error carries.
    pub open spec fn message(self) -> Seq<char> {
        match self {
            ErrorModel::CommandFailed(message) => message,
            ErrorModel::MissingCommand(message) => message,
            ErrorModel::InvalidOutput(message) => message,
        }
    }

    /// The words that introduce errors of this kind.
    pub open spec fn heading(self) -> Seq<char> {
        match self {
            ErrorModel::CommandFailed(_) => "Command failed: "@,
            ErrorModel::MissingCommand(_) => "Command not found: "@,
            ErrorModel::InvalidOutput(_) => "Output invalid: "@,
        }
    }

    /// The error as one line of text: the heading of its kind, then its
    /// message.
    pub open spec fn text(self) -> Seq<char> {
        self.heading() + self.message()
    }
}

impl View for AudioListenerError {
    type V = ErrorModel;

    open spec fn view(&self) -> ErrorModel {
        match self {
            AudioListenerError::CommandFailed(message) => ErrorModel::CommandFailed(message@),
            AudioListenerError::MissingCommand(message) => ErrorModel::MissingCommand(message@),
            AudioListenerError::InvalidOutput(message) => ErrorModel::InvalidOutput(message@),
        }
    }
}

/// What a probe ended in: a verdict, or the model of its error.
pub open spec fn outcome_model(outcome: Result<AudioStatus, AudioListenerError>) -> Result<
    AudioStatus,
    ErrorModel,
> {
    match outcome {
        Ok(status) => Ok(status),
        Err(error) => Err(error@),
    }
}

/// The verdict for a probe that answered: `Playing` exactly when it saw an
/// active stream.
pub open spec fn status_of(active: bool) -> AudioStatus {
    if active {
        AudioStatus::Playing
    } else {
        AudioStatus::NotPlaying
    }
}

/// The audio system that goes by the lower-case `name`.
pub open spec fn system_named(name: Seq<char>) -> Option<AudioSystem> {
    if name == "pipewire"@ {
        Some(AudioSystem::PipeWire)
    } else if name == "pulseaudio"@ {
        Some(AudioSystem::PulseAudio)
    } else {
        None
    }
}

impl AudioStatus {
    /// Turns "some stream is active" into a verdict.
    pub fn from_activity(active: bool) -> (status: AudioStatus)
        ensures
            status == status_of(active),
    {
        if active {
            AudioStatus::Playing
        } else {
            AudioStatus::NotPlaying
        }
    }
}

impl AudioListenerError {
    /// The message that the error carries.
    pub fn message(&self) -> (message: &str)
        ensures
            message@ == self@.message(),
    {
        match self {
            AudioListenerError::CommandFailed(message) => message.as_str(),
            AudioListenerError::MissingCommand(message) => message.as_str(),
            AudioListenerError::InvalidOutput(message) => message.as_str(),
        }
    }

    /// The error as one line of text: the heading of its kind, then its
    /// message.
    pub fn describe(&self) -> (line: String)
        ensures
            line@ == self@.text(),
    {
        let mut line = match self {
            AudioListenerError::CommandFailed(_) => "Command failed: ".to_owned(),
            AudioListenerError::MissingCommand(_) => "Command not found: ".to_owned(),
            AudioListenerError::InvalidOutput(_) => "Output invalid: ".to_owned(),
        };
        line.append(self.message());
        line
    }
}

impl AudioSystem {
    /// The audio system that goes by `name`, which is compared as it stands.
    pub fn from_lowercase(name: &str) -> (system: Option<AudioSystem>)
        ensures
            system == system_named(name@),
    {
        if same_text(name, "pipewire") {
            Some(AudioSystem::PipeWire)
        } else if same_text(name, "pulseaudio") {
            Some(AudioSystem::PulseAudio)
        } else {
            None
        }
    }

    /// Reads the name of an audio system, in any mix of upper and lower
    /// case.
    ///
    /// Succeeds exactly when the lower-cased input is `pipewire` or
    /// `pulseaudio`; any other input comes back in the error message.
    pub fn parse_name(input: &str) -> (parsed: Result<AudioSystem, String>)
        ensures
            match parsed {
                Ok(system) => system_named(lowercase(input@)) == Some(system),
                Err(message) => system_named(lowercase(input@)) is None && message@
                    == "Invalid audio system: "@ + input@,
            },
    {
        let lowered = to_lowercase(input);
        match AudioSystem::from_lowercase(lowered.as_str()) {
            Some(system) => Ok(system),
            None => {
                let mut message = "Invalid audio system: ".to_owned();
                message.append(input);
                Err(message)
            },
        }
    }
}

impl std::str::FromStr for AudioSystem {
    type Err = String;

    /// Reads the name of an audio system as [`AudioSystem::parse_name`]
    /// does: in any mix of upper and lower case, with any other input back
    /// in the error message.
    fn from_str(input: &str) -> (parsed: Result<AudioSystem, String>)
        ensures
            match parsed {
                Ok(system) => system_named(lowercase(input@)) == Some(system),
                Err(message) => system_named(lowercase(input@)) is None && message@
                    == "Invalid audio system: "@ + input@,
            },
    {
        AudioSystem::parse_name(input)
    }
}

} // verus!
