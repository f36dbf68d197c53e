//! The text modules shown on the bar.

pub mod audio;
pub mod clock;

use vstd::prelude::*;
use crate::modules::audio::AudioModule;
use crate::modules::clock::ClockModule;
use crate::text::decimal;
use crate::volume::VolumeError;

verus! {

/// A module of the bar: something that produces a short text each frame.
#[derive(Debug, Clone, Copy, PartialEq, Eq, Structural)]
pub enum Module {
    Clock(ClockModule),
    Audio(AudioModule),
}

impl Module {
    /// The module after a frame in which the audio service reported
    /// `volume`.
    pub open spec fn after(self, volume: Result<u8, VolumeError>) -> Module {
        match self {
            Module::Clock(clock) => Module::Clock(clock),
            Module::Audio(audio) => Module::Audio(audio.after(volume)),
        }
    }

    /// What the module shows at the instant `seconds` after the Unix epoch.
    pub open spec fn shown(self, seconds: i64) -> Seq<char> {
        match self {
            Module::Clock(_) => ClockModule::shown_at(seconds),
            Module::Audio(audio) => decimal(audio.previous as nat),
        }
    }

    /// Whether something outside the bar has to be closed when the module
    /// is cleaned up.
    pub open spec fn holds_connection(self) -> bool {
        self is Audio
    }

    /// Brings the module up to date and returns its text: the clock for
    /// the instant `seconds` after the Unix epoch, the audio module for the
    /// reading `volume`.
    pub fn display(&mut self, seconds: i64, volume: Result<u8, VolumeError>) -> (text: String)
        ensures
            *final(self) == old(self).after(volume),
            text@ == final(self).shown(seconds),
    {
        match self {
            Module::Clock(clock) => clock.display_at(seconds),
            Module::Audio(audio) => audio.display(volume),
        }
    }

    /// Cleans the module up and says whether its connection has to be
    /// closed.
    pub fn clean_up(&mut self) -> (close: bool)
        ensures
            *final(self) == *old(self),
            close == old(self).holds_connection(),
    {
        match self {
            Module::Clock(_) => false,
            Module::Audio(_) => true,
        }
    }
}

} // verus!
