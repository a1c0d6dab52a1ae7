use media_sessions::command::{CallError, Command};
use media_sessions::events::{Outcome, PollStep, SessionEvent};
use media_sessions::session::Session;
use media_sessions::status::{PlaybackStatus, RepeatMode};
use media_sessions::timeline::{position_at, seek_share, ClPosition, Timeline, NORMAL_RATE, TICKS_PER_SECOND, WHOLE};
use windows::Media::Control::GlobalSystemMediaTransportControlsSessionPlaybackStatus;

#[test]
fn status_codes_are_the_six_canonical_ones() {
    let all = [
        (0, PlaybackStatus::Closed, "Closed"),
        (1, PlaybackStatus::Opened, "Opened"),
        (2, PlaybackStatus::Changing, "Changing"),
        (3, PlaybackStatus::Stopped, "Stopped"),
        (4, PlaybackStatus::Playing, "Playing"),
        (5, PlaybackStatus::Paused, "Paused"),
    ];
    for (code, status, name) in all {
        assert_eq!(PlaybackStatus::from_code(code), Some(status));
        assert_eq!(status.code(), code);
        assert_eq!(status.label(), name);
    }
    for code in [-1, 6, 7, i32::MAX, i32::MIN] {
        assert_eq!(PlaybackStatus::from_code(code), None);
    }
}

#[test]
fn status_codes_are_those_of_the_platform() {
    let all = [
        (GlobalSystemMediaTransportControlsSessionPlaybackStatus::Closed, PlaybackStatus::Closed),
        (GlobalSystemMediaTransportControlsSessionPlaybackStatus::Opened, PlaybackStatus::Opened),
        (GlobalSystemMediaTransportControlsSessionPlaybackStatus::Changing, PlaybackStatus::Changing),
        (GlobalSystemMediaTransportControlsSessionPlaybackStatus::Stopped, PlaybackStatus::Stopped),
        (GlobalSystemMediaTransportControlsSessionPlaybackStatus::Playing, PlaybackStatus::Playing),
        (GlobalSystemMediaTransportControlsSessionPlaybackStatus::Paused, PlaybackStatus::Paused),
    ];
    for (reported, status) in all {
        assert_eq!(PlaybackStatus::from_code(reported.0), Some(status));
        assert_eq!(GlobalSystemMediaTransportControlsSessionPlaybackStatus(status.code()), reported);
    }
    assert_eq!(GlobalSystemMediaTransportControlsSessionPlaybackStatus(4).0, PlaybackStatus::Playing.code());
    assert_eq!(GlobalSystemMediaTransportControlsSessionPlaybackStatus(5).0, PlaybackStatus::Paused.code());
}

#[test]
fn repeat_modes_are_named() {
    for (mode, name) in [(RepeatMode::Off, "None"), (RepeatMode::Track, "Track"), (RepeatMode::List, "List")] {
        assert_eq!(mode.label(), name);
        assert_eq!(RepeatMode::from_label(&name.to_string()), Some(mode));
    }
    for name in ["", "none", "Off", "All", "Track ", "Context"] {
        assert_eq!(RepeatMode::from_label(&name.to_string()), None);
    }
}

#[test]
fn units_of_the_timeline() {
    assert_eq!(TICKS_PER_SECOND, 10_000_000);
    assert_eq!(WHOLE, 1_000_000);
    assert_eq!(NORMAL_RATE, 1_000);
}

#[test]
fn share_of_a_duration() {
    let known = |duration: i64| Some(Timeline { position: 0, duration: Some(duration), rate_milli: NORMAL_RATE });
    assert_eq!(seek_share(500_000, known(2_000_000_000)), Ok(1_000_000_000));
    assert_eq!(seek_share(100_000, known(2_000_000_000)), Ok(200_000_000));
    assert_eq!(seek_share(1, known(999_999)), Ok(0));
    assert_eq!(seek_share(1, known(1_000_000)), Ok(1));
    assert_eq!(seek_share(WHOLE, known(7)), Ok(7));
    assert_eq!(seek_share(WHOLE + 1, known(7)), Err(CallError::Rejected));
    assert_eq!(seek_share(0, known(-7)), Err(CallError::Rejected));
    assert_eq!(seek_share(0, None), Err(CallError::Rejected));
    assert_eq!(
        seek_share(0, Some(Timeline { position: 9, duration: None, rate_milli: NORMAL_RATE })),
        Err(CallError::Rejected)
    );
}

#[test]
fn position_of_a_timeline() {
    let t = Timeline { position: 1_000, duration: Some(5_000), rate_milli: 1_500 };
    assert_eq!(position_at(Some(t), false, 400), Some(ClPosition { how_much: 1_000 }));
    assert_eq!(position_at(Some(t), true, 400), Some(ClPosition { how_much: 1_600 }));
    assert_eq!(position_at(Some(t), true, 1), Some(ClPosition { how_much: 1_001 }));
    assert_eq!(position_at(None, true, 400), None);
}

#[test]
fn a_session_record_starts_with_nothing_set() {
    let session = Session::new("App1".to_string());
    assert_eq!(session.aumid(), "App1");
    assert!(!session.shuffle());
    assert_eq!(session.repeat(), RepeatMode::Off);
}

#[test]
fn a_session_record_keeps_accepted_settings_and_copies_faithfully() {
    let mut session = Session::new("App1".to_string());
    session.commit(Command::SetShuffle(true), false);
    assert!(!session.shuffle());
    session.commit(Command::SetShuffle(true), true);
    session.commit(Command::SetRepeat(RepeatMode::Track), true);
    session.commit(Command::Stop, true);
    session.notify(SessionEvent::PlaybackInfoChanged);

    let mut copy = session.duplicate();
    assert_eq!(copy.aumid(), "App1");
    assert!(copy.shuffle());
    assert_eq!(copy.repeat(), RepeatMode::Track);
    assert_eq!(copy.finish_poll(Ok(())), Outcome::Event(SessionEvent::PlaybackInfoChanged));
    assert_eq!(session.poll_next_event(5), PollStep::Ready(Outcome::Event(SessionEvent::PlaybackInfoChanged)));
    assert_eq!(session.poll_next_event(5), PollStep::Wait { timeout_ms: 5 });
}
