use vstd::prelude::*;

use crate::playback::PlaybackEvent;

verus! {

/// Whether a seek is taken from the current position or from the start.
#[derive(Clone, Copy, Debug, PartialEq, Eq, Structural)]
pub enum SeekMode {
    Relative,
    Absolute,
}

/// The kind of a selectable stream.
#[derive(Clone, Copy, Debug, PartialEq, Eq, Structural)]
pub enum TrackKind {
    Audio,
    Subtitle,
}

/// One command or property write for the media engine.
#[derive(Debug)]
pub enum EngineCommand {
    SetPause(bool),
    Seek { millis: i64, mode: SeekMode },
    SetVolume(u8),
    /// Playback speed in thousandths.
    SetSpeed(u32),
    /// Replace the current source, optionally starting at an offset.
    LoadFile { source: String, start_millis: Option<i64> },
    /// Write the active track of a kind; the selection is passed on verbatim.
    SelectTrack { kind: TrackKind, selection: String },
}

/// The engine commands that carry out `event`, given whether the engine
/// reports that no file is loaded.
pub open spec fn planned_commands(event: PlaybackEvent, idle_active: bool) -> Seq<EngineCommand> {
    match event {
        PlaybackEvent::Play => seq![EngineCommand::SetPause(false)],
        PlaybackEvent::Pause => seq![EngineCommand::SetPause(true)],
        PlaybackEvent::Seek(millis) => if idle_active {
            seq![]
        } else {
            seq![EngineCommand::Seek { millis, mode: SeekMode::Relative }]
        },
        PlaybackEvent::AbsoluteSeek(millis) => seq![
            EngineCommand::Seek { millis, mode: SeekMode::Absolute },
        ],
        PlaybackEvent::Volume(v) => seq![EngineCommand::SetVolume(v)],
        PlaybackEvent::Speed(s) => seq![EngineCommand::SetSpeed(s)],
        PlaybackEvent::Load(source, start_millis) => seq![
            EngineCommand::LoadFile { source, start_millis },
            EngineCommand::SetPause(false),
        ],
        PlaybackEvent::ChangeSubtitle(selection) => seq![
            EngineCommand::SelectTrack { kind: TrackKind::Subtitle, selection },
        ],
        PlaybackEvent::ChangeAudio(selection) => seq![
            EngineCommand::SelectTrack { kind: TrackKind::Audio, selection },
        ],
        _ => seq![],
    }
}

/// Translates a playback intent into engine commands.
///
/// A relative seek is dropped while the engine is idle (no file loaded); an
/// absolute seek is always issued. Loading always unpauses. Intents that
/// concern surfaces, and end-of-file and error reports, need no command.
pub fn engine_commands(event: PlaybackEvent, idle_active: bool) -> (r: Vec<EngineCommand>)
    ensures
        r@ == planned_commands(event, idle_active),
{
    let ghost e = event;
    let r = match event {
        PlaybackEvent::Play => vec![EngineCommand::SetPause(false)],
        PlaybackEvent::Pause => vec![EngineCommand::SetPause(true)],
        PlaybackEvent::Seek(millis) => if idle_active {
            Vec::new()
        } else {
            vec![EngineCommand::Seek { millis, mode: SeekMode::Relative }]
        },
        PlaybackEvent::AbsoluteSeek(millis) => vec![
            EngineCommand::Seek { millis, mode: SeekMode::Absolute },
        ],
        PlaybackEvent::Volume(v) => vec![EngineCommand::SetVolume(v)],
        PlaybackEvent::Speed(s) => vec![EngineCommand::SetSpeed(s)],
        PlaybackEvent::Load(source, start_millis) => vec![
            EngineCommand::LoadFile { source, start_millis },
            EngineCommand::SetPause(false),
        ],
        PlaybackEvent::ChangeSubtitle(selection) => vec![
            EngineCommand::SelectTrack { kind: TrackKind::Subtitle, selection },
        ],
        PlaybackEvent::ChangeAudio(selection) => vec![
            EngineCommand::SelectTrack { kind: TrackKind::Audio, selection },
        ],
        _ => Vec::new(),
    };
    assert(r@ =~= planned_commands(e, idle_active));
    r
}

/// The options the engine session is configured with at start: video output
/// through the render interface, idle without a file, paused, and kept open
/// at the end of a file without pausing there.
pub open spec fn startup_table() -> Seq<(Seq<char>, Seq<char>)> {
    seq![
        ("vo"@, "libmpv"@),
        ("idle"@, "yes"@),
        ("pause"@, "yes"@),
        ("keep-open"@, "always"@),
        ("keep-open-pause"@, "no"@),
        ("video-timing-offset"@, "0"@),
    ]
}

/// The engine options to set at start, as name and value, in order.
pub fn startup_options() -> (r: Vec<(String, String)>)
    ensures
        r@.map_values(|p: (String, String)| (p.0@, p.1@)) == startup_table(),
{
    let r = vec![
        ("vo".to_owned(), "libmpv".to_owned()),
        ("idle".to_owned(), "yes".to_owned()),
        ("pause".to_owned(), "yes".to_owned()),
        ("keep-open".to_owned(), "always".to_owned()),
        ("keep-open-pause".to_owned(), "no".to_owned()),
        ("video-timing-offset".to_owned(), "0".to_owned()),
    ];
    assert(r@.map_values(|p: (String, String)| (p.0@, p.1@)) =~= startup_table());
    r
}

/// A load with a start offset hands the engine that very offset with the
/// source, then unpauses. (Where the engine then reports the position to be
/// is the engine's own behaviour.)
pub proof fn lemma_load_keeps_offset(source: String, start_millis: i64, idle_active: bool)
    ensures
        planned_commands(PlaybackEvent::Load(source, Some(start_millis)), idle_active) == seq![
            EngineCommand::LoadFile { source, start_millis: Some(start_millis) },
            EngineCommand::SetPause(false),
        ],
{
}

/// While the engine is idle a relative seek issues no command, and an
/// absolute seek is still issued.
pub proof fn lemma_idle_seek(millis: i64)
    ensures
        planned_commands(PlaybackEvent::Seek(millis), true) == Seq::<EngineCommand>::empty(),
        planned_commands(PlaybackEvent::AbsoluteSeek(millis), true) == seq![
            EngineCommand::Seek { millis, mode: SeekMode::Absolute },
        ],
{
}

} // verus!
