//! The audio module: the output volume in percent.

use vstd::prelude::*;
use crate::text::{decimal, decimal_text};
use crate::volume::VolumeError;

verus! {

/// The audio module. It remembers the volume that it showed last.
#[derive(Debug, Clone, Copy, PartialEq, Eq, Structural)]
pub struct AudioModule {
    pub previous: u8,
}

impl AudioModule {
    pub fn new() -> (audio: AudioModule)
        ensures
            audio.previous == 0,
    {
        AudioModule { previous: 0 }
    }

    /// The module after the audio service reported `volume`: a reading
    /// takes the place of the remembered volume, a failure leaves it.
    pub open spec fn after(self, volume: Result<u8, VolumeError>) -> AudioModule {
        match volume {
            Ok(now) => AudioModule { previous: now },
            Err(_) => self,
        }
    }

    /// Takes in what the audio service reported and returns the volume to
    /// show, in decimal.
    pub fn display(&mut self, volume: Result<u8, VolumeError>) -> (text: String)
        ensures
            *final(self) == old(self).after(volume),
            text@ == decimal(final(self).previous as nat),
    {
        match volume {
            Ok(now) => {
                self.previous = now;
            },
            Err(_) => {},
        }
        decimal_text(self.previous)
    }
}

} // verus!
