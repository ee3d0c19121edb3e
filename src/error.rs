use vstd::prelude::*;

use crate::decoder::Mp3Error;

verus! {

/// Everything that can go wrong while starting, running or stopping playback.
///
/// Failures reported by the audio host or the HTTP client carry that
/// component's own description of the failure.
#[derive(Clone, Debug, PartialEq, Eq)]
pub enum Error {
    RodioPlay(String),
    RodioStream(String),
    RodioDevices(String),
    RodioDecode(String),
    CPALDeviceName(String),
    Mp3(Mp3Error),
    Reqwest(String),
    NoSuchDevice,
    NoDefaultAudioDevice,
    NotPlaying,
    StreamConnectTimeout(u8),
}

impl Error {
    /// Whether the caller asked for something that cannot be done now, rather
    /// than the player failing: only stopping a player that plays nothing.
    pub fn is_client_error(&self) -> (r: bool)
        ensures
            r == (*self is NotPlaying),
    {
        match self {
            Error::NotPlaying => true,
            _ => false,
        }
    }

    /// A copy of this error.
    pub fn copy(&self) -> (r: Error)
        ensures
            r == *self,
    {
        match self {
            Error::RodioPlay(s) => Error::RodioPlay(s.clone()),
            Error::RodioStream(s) => Error::RodioStream(s.clone()),
            Error::RodioDevices(s) => Error::RodioDevices(s.clone()),
            Error::RodioDecode(s) => Error::RodioDecode(s.clone()),
            Error::CPALDeviceName(s) => Error::CPALDeviceName(s.clone()),
            Error::Mp3(e) => Error::Mp3(*e),
            Error::Reqwest(s) => Error::Reqwest(s.clone()),
            Error::NoSuchDevice => Error::NoSuchDevice,
            Error::NoDefaultAudioDevice => Error::NoDefaultAudioDevice,
            Error::NotPlaying => Error::NotPlaying,
            Error::StreamConnectTimeout(secs) => Error::StreamConnectTimeout(*secs),
        }
    }
}

} // verus!
