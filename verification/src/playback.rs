//! The audio controller's state machine: what the playback thread
//! reports back, and how the published playback state moves. Decoding
//! and output live on the audio thread with its device libraries; the
//! state rule is verified here.

use vstd::prelude::*;

verus! {

/// The externally visible playback state.
#[derive(Clone, Copy, Debug, PartialEq, Eq, Structural)]
pub enum PlaybackState {
    Stopped,
    Playing,
    Paused,
}

impl Default for PlaybackState {
    /// Playback starts stopped.
    fn default() -> (r: PlaybackState)
        ensures
            r == PlaybackState::Stopped,
    {
        PlaybackState::Stopped
    }
}

/// What the playback thread observed while serving a command.
#[derive(Clone, Copy, Debug, PartialEq, Eq, Structural)]
pub enum PlaybackEvent {
    /// A play command whose file opened and decoded.
    PlayStarted,
    /// A play command that failed to open or decode its file.
    PlayFailed,
    /// A pause command.
    Pause,
    /// A resume command.
    Resume,
    /// A stop command.
    Stop,
    /// A volume change, which never moves the state.
    VolumeChanged,
}

/// The published state after an event: playing after a successful
/// play or a resume, paused after a pause, stopped after a stop or a
/// failed play, and unchanged by a volume change.
pub open spec fn spec_playback_transition(s: PlaybackState, e: PlaybackEvent) -> PlaybackState {
    match e {
        PlaybackEvent::PlayStarted => PlaybackState::Playing,
        PlaybackEvent::PlayFailed => PlaybackState::Stopped,
        PlaybackEvent::Pause => PlaybackState::Paused,
        PlaybackEvent::Resume => PlaybackState::Playing,
        PlaybackEvent::Stop => PlaybackState::Stopped,
        PlaybackEvent::VolumeChanged => s,
    }
}

/// Move the published state, as [`spec_playback_transition`]
/// describes.
pub fn playback_transition(s: PlaybackState, e: PlaybackEvent) -> (r: PlaybackState)
    ensures
        r == spec_playback_transition(s, e),
{
    match e {
        PlaybackEvent::PlayStarted => PlaybackState::Playing,
        PlaybackEvent::PlayFailed => PlaybackState::Stopped,
        PlaybackEvent::Pause => PlaybackState::Paused,
        PlaybackEvent::Resume => PlaybackState::Playing,
        PlaybackEvent::Stop => PlaybackState::Stopped,
        PlaybackEvent::VolumeChanged => s,
    }
}

} // verus!
