//! What the player remembers between runs.

use vstd::prelude::*;

verus! {

/// The volume of a player that was never set, in millionths of full scale.
pub const DEFAULT_VOLUME: u32 = 500_000;

/// The user's preferences.
#[derive(Debug, PartialEq, Eq, Structural, Clone, Copy)]
pub struct Preferences {
    /// Whether the player answers to the media keys of the system.
    pub use_system_audio_controls: bool,
    /// Gain of the device, in millionths of full scale.
    pub volume: u32,
}

impl Default for Preferences {
    fn default() -> (r: Preferences)
        ensures
            r == (Preferences { use_system_audio_controls: true, volume: DEFAULT_VOLUME }),
    {
        Preferences { use_system_audio_controls: true, volume: DEFAULT_VOLUME }
    }
}

impl Preferences {
    /// The preferences with another volume: what the playback engine stores
    /// once a change of volume has settled.
    pub fn with_volume(self, volume: u32) -> (r: Preferences)
        ensures
            r == (Preferences { volume, ..self }),
    {
        Preferences { use_system_audio_controls: self.use_system_audio_controls, volume }
    }

    /// Whether the preferences are to be written: they differ from what was
    /// written last.
    pub fn needs_saving(&self, saved: &Preferences) -> (r: bool)
        ensures
            r == (*self != *saved),
    {
        self.use_system_audio_controls != saved.use_system_audio_controls || self.volume
            != saved.volume
    }
}

} // verus!
