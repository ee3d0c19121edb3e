use vstd::prelude::*;

verus! {

/// The volume that a new settings file starts with.
pub const DEFAULT_VOLUME_PERCENT: u8 = 100;

/// The settings that change at run time and persist across restarts.
#[derive(Clone, Copy, Debug, PartialEq, Eq, Structural)]
pub struct Settings {
    pub alsa_device_index: usize,
    pub volume_percent: u8,
}

impl Settings {
    /// The settings of a fresh installation: the host's default output device
    /// at full volume.
    pub fn default(alsa_device_index: usize) -> (r: Settings)
        ensures
            r == (Settings { alsa_device_index, volume_percent: DEFAULT_VOLUME_PERCENT }),
    {
        Settings { alsa_device_index, volume_percent: DEFAULT_VOLUME_PERCENT }
    }
}

} // verus!
