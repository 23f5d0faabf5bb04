use vstd::prelude::*;

verus! {

/// One intent on the coordinator's queue: a playback command from the user
/// interface, a window signal, or an internal trigger.
///
/// Times are in milliseconds, the speed factor in thousandths (1000 is normal
/// speed) and the volume in percent.
#[derive(Debug)]
pub enum PlaybackEvent {
    Play,
    Pause,
    /// Seek by an offset from the current position.
    Seek(i64),
    /// Seek to a position from the start.
    AbsoluteSeek(i64),
    Volume(u8),
    Speed(u32),
    /// Load a source, optionally starting at an offset.
    Load(String, Option<i64>),
    /// Select a subtitle track by the engine's identifier (`"no"` disables it).
    ChangeSubtitle(String),
    /// Select an audio track by the engine's identifier (`"no"` disables it).
    ChangeAudio(String),
    Clear,
    /// A window's drawable area changed to the given width and height.
    Resize(String, u32, u32),
    /// Make the named window's surface the one that receives frames.
    SwitchTarget(String),
    Redraw,
    EndOfFile,
    Error(String),
}

} // verus!
