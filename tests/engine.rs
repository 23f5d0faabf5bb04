use square::engine::{engine_commands, startup_options, EngineCommand, SeekMode, TrackKind};
use square::playback::PlaybackEvent;

#[test]
fn play_and_pause_write_pause_state() {
    assert!(matches!(&engine_commands(PlaybackEvent::Play, false)[..], [EngineCommand::SetPause(false)]));
    assert!(matches!(&engine_commands(PlaybackEvent::Pause, true)[..], [EngineCommand::SetPause(true)]));
}

#[test]
fn relative_seek_needs_loaded_file() {
    assert!(engine_commands(PlaybackEvent::Seek(1000), true).is_empty());
    assert!(matches!(
        &engine_commands(PlaybackEvent::Seek(1000), false)[..],
        [EngineCommand::Seek { millis: 1000, mode: SeekMode::Relative }]
    ));
    assert!(matches!(
        &engine_commands(PlaybackEvent::AbsoluteSeek(0), true)[..],
        [EngineCommand::Seek { millis: 0, mode: SeekMode::Absolute }]
    ));
}

#[test]
fn load_carries_start_offset_and_unpauses() {
    let r = engine_commands(PlaybackEvent::Load("movie.mp4".to_string(), Some(30_000)), false);
    assert_eq!(r.len(), 2);
    assert!(matches!(
        &r[0],
        EngineCommand::LoadFile { source, start_millis: Some(30_000) } if source == "movie.mp4"
    ));
    assert!(matches!(&r[1], EngineCommand::SetPause(false)));
    let r = engine_commands(PlaybackEvent::Load("movie.mp4".to_string(), None), false);
    assert!(matches!(&r[0], EngineCommand::LoadFile { start_millis: None, .. }));
}

#[test]
fn volume_speed_and_tracks() {
    assert!(matches!(&engine_commands(PlaybackEvent::Volume(75), false)[..], [EngineCommand::SetVolume(75)]));
    assert!(matches!(&engine_commands(PlaybackEvent::Speed(1500), false)[..], [EngineCommand::SetSpeed(1500)]));
    assert!(matches!(
        &engine_commands(PlaybackEvent::ChangeSubtitle("no".to_string()), false)[..],
        [EngineCommand::SelectTrack { kind: TrackKind::Subtitle, selection }] if selection == "no"
    ));
}

#[test]
fn surface_intents_need_no_engine_command() {
    assert!(engine_commands(PlaybackEvent::Redraw, false).is_empty());
    assert!(engine_commands(PlaybackEvent::Clear, false).is_empty());
    assert!(engine_commands(PlaybackEvent::Resize("main".to_string(), 1, 1), false).is_empty());
    assert!(engine_commands(PlaybackEvent::SwitchTarget("pip".to_string()), false).is_empty());
}

#[test]
fn startup_options_table() {
    let r = startup_options();
    let expected = [
        ("vo", "libmpv"),
        ("idle", "yes"),
        ("pause", "yes"),
        ("keep-open", "always"),
        ("keep-open-pause", "no"),
        ("video-timing-offset", "0"),
    ];
    assert_eq!(r.len(), expected.len());
    for (got, want) in r.iter().zip(expected.iter()) {
        assert_eq!(got.0, want.0);
        assert_eq!(got.1, want.1);
    }
}
