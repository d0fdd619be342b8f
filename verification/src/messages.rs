//! Audio on its way between the parts of the system.

use vstd::prelude::*;

verus! {

/// Audio that was captured.
#[derive(Debug)]
pub enum AudioCaptureMessage {
    /// The next samples, at 24 kHz.
    Chunk(Vec<i16>),
}

/// What the playback is told.
#[derive(Debug)]
pub enum AudioPlaybackMessage {
    /// Play these samples, at 48 kHz, behind what is waiting to be played.
    Play(Vec<i16>),
    /// Drop what is waiting to be played.
    Reset,
}

/// The mathematical counterpart of an [`AudioPlaybackMessage`].
pub enum PlaybackView {
    Play(Seq<i16>),
    Reset,
}

impl View for AudioPlaybackMessage {
    type V = PlaybackView;

    open spec fn view(&self) -> PlaybackView {
        match *self {
            AudioPlaybackMessage::Play(samples) => PlaybackView::Play(samples@),
            AudioPlaybackMessage::Reset => PlaybackView::Reset,
        }
    }
}

} // verus!
