//! The playback status a device reports.

use vstd::prelude::*;

verus! {

/// The live playback state of an audio device.
#[derive(Debug, Clone, Copy, PartialEq, Eq, Structural)]
pub enum AudioStatus {
    /// The device is stopped.
    Stopped,
    /// The device is playing.
    Playing,
    /// The device is paused.
    Paused,
}

impl AudioStatus {
    /// The status a native status code stands for.  The native layer
    /// reports `1` for playing and `2` for paused; every other code is
    /// read as stopped.
    pub open spec fn spec_from_raw(raw: u32) -> AudioStatus {
        if raw == 1 {
            AudioStatus::Playing
        } else if raw == 2 {
            AudioStatus::Paused
        } else {
            AudioStatus::Stopped
        }
    }

    /// Decodes a native status code.
    pub fn from_raw(raw: u32) -> (status: AudioStatus)
        ensures
            status == AudioStatus::spec_from_raw(raw),
    {
        if raw == 1 {
            AudioStatus::Playing
        } else if raw == 2 {
            AudioStatus::Paused
        } else {
            AudioStatus::Stopped
        }
    }
}

} // verus!
