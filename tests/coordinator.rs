use square::coordinator::{Action, CoordError, RenderManager};
use square::engine::{EngineCommand, SeekMode, TrackKind};
use square::geometry::Size;
use square::playback::PlaybackEvent;

fn s(text: &str) -> String {
    text.to_string()
}

fn size(width: u32, height: u32) -> Size {
    Size { width, height }
}

fn manager() -> RenderManager {
    RenderManager::new_with_pip(s("main"), size(1280, 720), s("pip"), size(400, 225))
}

fn render_target(actions: &[Action]) -> Option<(String, Size)> {
    match actions.last() {
        Some(Action::Render { id, size }) => Some((id.clone(), *size)),
        _ => None,
    }
}

#[test]
fn new_clamps_initial_size() {
    let m = RenderManager::new(s("main"), size(0, 0));
    assert_eq!(m.surface_size(&s("main")), Some(size(1, 1)));
    assert_eq!(m.active_window(), "main");
    assert_eq!(m.primary_window(), "main");
    assert_eq!(m.surface_size(&s("pip")), None);
}

#[test]
fn resize_clamps_and_leaves_others() {
    let mut m = manager();
    let r = m.handle_event(PlaybackEvent::Resize(s("pip"), 0, 300), false).unwrap();
    assert_eq!(r.len(), 1);
    match &r[0] {
        Action::ResizeSurface { id, size: z } => {
            assert_eq!(id, "pip");
            assert_eq!(*z, size(1, 300));
        }
        other => panic!("unexpected action {:?}", other),
    }
    assert_eq!(m.surface_size(&s("pip")), Some(size(1, 300)));
    assert_eq!(m.surface_size(&s("main")), Some(size(1280, 720)));
    assert_eq!(m.active_window(), "main");
}

#[test]
fn resize_sequence_keeps_last_per_surface() {
    let mut m = manager();
    let events = vec![
        PlaybackEvent::Resize(s("main"), 800, 600),
        PlaybackEvent::Resize(s("pip"), 320, 0),
        PlaybackEvent::Resize(s("main"), 1920, 1080),
    ];
    for e in events {
        m.handle_event(e, false).unwrap();
    }
    assert_eq!(m.surface_size(&s("main")), Some(size(1920, 1080)));
    assert_eq!(m.surface_size(&s("pip")), Some(size(320, 1)));
}

#[test]
fn resize_missing_surface_is_refused() {
    let mut m = manager();
    match m.handle_event(PlaybackEvent::Resize(s("other"), 10, 10), false) {
        Err(e) => {
            assert!(matches!(&e, CoordError::MissingTarget(id) if id == "other"));
            assert_eq!(e.message(), "Window context 'other' not found");
        }
        Ok(a) => panic!("expected a refusal, got {:?}", a),
    }
    assert_eq!(m.surface_size(&s("main")), Some(size(1280, 720)));
    assert_eq!(m.surface_size(&s("pip")), Some(size(400, 225)));
}

#[test]
fn switch_then_redraw_renders_into_target() {
    let mut m = manager();
    let r = m.handle_event(PlaybackEvent::SwitchTarget(s("pip")), false).unwrap();
    assert!(matches!(&r[..], [Action::MakeCurrent(id)] if id == "pip"));
    let r = m.handle_event(PlaybackEvent::Redraw, false).unwrap();
    assert_eq!(r.len(), 1);
    assert_eq!(render_target(&r), Some((s("pip"), size(400, 225))));
    let r = m.handle_event(PlaybackEvent::SwitchTarget(s("main")), false).unwrap();
    assert!(matches!(&r[..], [Action::MakeCurrent(id)] if id == "main"));
    let r = m.handle_event(PlaybackEvent::Redraw, false).unwrap();
    assert_eq!(render_target(&r), Some((s("main"), size(1280, 720))));
}

#[test]
fn switch_to_missing_surface_is_refused() {
    let mut m = manager();
    let r = m.handle_event(PlaybackEvent::SwitchTarget(s("gone")), false);
    assert!(matches!(r, Err(CoordError::MissingTarget(ref id)) if id == "gone"));
    assert_eq!(m.active_window(), "main");
}

#[test]
fn redraw_fails_over_after_teardown() {
    let mut m = manager();
    m.handle_event(PlaybackEvent::SwitchTarget(s("pip")), false).unwrap();
    m.retire_surface(s("pip")).unwrap();
    assert_eq!(m.active_window(), "pip");
    let r = m.handle_event(PlaybackEvent::Redraw, false).unwrap();
    assert_eq!(r.len(), 2);
    assert!(matches!(&r[0], Action::MakeCurrent(id) if id == "main"));
    assert_eq!(render_target(&r), Some((s("main"), size(1280, 720))));
    assert_eq!(m.active_window(), "main");
}

#[test]
fn primary_surface_cannot_be_retired() {
    let mut m = manager();
    match m.retire_surface(s("main")) {
        Err(e) => {
            assert!(matches!(&e, CoordError::PrimarySurface(id) if id == "main"));
            assert_eq!(e.message(), "Window context 'main' is the primary one");
        }
        Ok(()) => panic!("the primary surface was retired"),
    }
    assert!(matches!(m.retire_surface(s("nope")), Err(CoordError::MissingTarget(_))));
    assert_eq!(m.surface_size(&s("main")), Some(size(1280, 720)));
}

#[test]
fn clear_pauses_then_clears_active() {
    let mut m = manager();
    m.handle_event(PlaybackEvent::SwitchTarget(s("pip")), false).unwrap();
    let r = m.handle_event(PlaybackEvent::Clear, true).unwrap();
    assert_eq!(r.len(), 2);
    assert!(matches!(&r[0], Action::Engine(EngineCommand::SetPause(true))));
    match &r[1] {
        Action::ClearSurface { id, size: z } => {
            assert_eq!(id, "pip");
            assert_eq!(*z, size(400, 225));
        }
        other => panic!("unexpected action {:?}", other),
    }
}

#[test]
fn clear_after_teardown_clears_primary() {
    let mut m = manager();
    m.handle_event(PlaybackEvent::SwitchTarget(s("pip")), false).unwrap();
    m.retire_surface(s("pip")).unwrap();
    let r = m.clear();
    assert_eq!(r.len(), 3);
    assert!(matches!(&r[0], Action::Engine(EngineCommand::SetPause(true))));
    assert!(matches!(&r[1], Action::MakeCurrent(id) if id == "main"));
    assert!(matches!(&r[2], Action::ClearSurface { id, .. } if id == "main"));
    assert_eq!(m.active_window(), "main");
}

#[test]
fn seek_while_idle_issues_nothing() {
    let mut m = manager();
    let r = m.handle_event(PlaybackEvent::Seek(5000), true).unwrap();
    assert!(r.is_empty());
    let r = m.handle_event(PlaybackEvent::AbsoluteSeek(5000), true).unwrap();
    assert!(matches!(
        &r[..],
        [Action::Engine(EngineCommand::Seek { millis: 5000, mode: SeekMode::Absolute })]
    ));
    let r = m.handle_event(PlaybackEvent::Seek(-2500), false).unwrap();
    assert!(matches!(
        &r[..],
        [Action::Engine(EngineCommand::Seek { millis: -2500, mode: SeekMode::Relative })]
    ));
}

#[test]
fn engine_intents_are_forwarded() {
    let mut m = manager();
    let r = m.handle_event(PlaybackEvent::Load(s("file:///a.mkv"), Some(30_000)), true).unwrap();
    assert_eq!(r.len(), 2);
    assert!(matches!(
        &r[0],
        Action::Engine(EngineCommand::LoadFile { source, start_millis: Some(30_000) })
            if source == "file:///a.mkv"
    ));
    assert!(matches!(&r[1], Action::Engine(EngineCommand::SetPause(false))));
    let r = m.handle_event(PlaybackEvent::ChangeAudio(s("2")), false).unwrap();
    assert!(matches!(
        &r[..],
        [Action::Engine(EngineCommand::SelectTrack { kind: TrackKind::Audio, selection })]
            if selection == "2"
    ));
    let r = m.handle_event(PlaybackEvent::EndOfFile, false).unwrap();
    assert!(r.is_empty());
    let r = m.handle_event(PlaybackEvent::Error(s("boom")), false).unwrap();
    assert!(r.is_empty());
    assert_eq!(m.active_window(), "main");
}

#[test]
fn render_to_window_uses_registered_size() {
    let m = manager();
    match m.render_to_window(&s("pip")) {
        Some(Action::Render { id, size: z }) => {
            assert_eq!(id, "pip");
            assert_eq!(z, size(400, 225));
        }
        other => panic!("unexpected {:?}", other),
    }
    assert!(m.render_to_window(&s("none")).is_none());
}
