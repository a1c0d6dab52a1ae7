use std::future::pending;
use std::time::{Duration, Instant};

use media_sessions::clplayermanager::ClPlayerManager;
use media_sessions::events::{
    poll_with_timeout, EventSlot, ManagerEvent, Outcome, PollStep, SessionEvent, DEFAULT_POLL_TIMEOUT_MS,
};
use tokio::runtime::Builder;
use tokio::sync::Notify;
use tokio::time::error::Elapsed;
use tokio::time::timeout;

/// Waits for a notification that never comes.
fn wait_in_vain(limit: Duration) -> Result<(), Elapsed> {
    let runtime = Builder::new_current_thread().enable_time().build().unwrap();
    runtime.block_on(async { timeout(limit, pending::<()>()).await })
}

/// Waits for a notification that is already there.
fn wait_notified(limit: Duration) -> Result<(), Elapsed> {
    let runtime = Builder::new_current_thread().enable_time().build().unwrap();
    let wake = Notify::new();
    wake.notify_one();
    runtime.block_on(async { timeout(limit, wake.notified()).await })
}

fn elapsed() -> Elapsed {
    wait_in_vain(Duration::from_millis(5)).unwrap_err()
}

/// Does the waiting that a poll step asks for, on a source that stays silent.
fn wait_as_asked<E>(step: &PollStep<E>) -> Result<(), Elapsed> {
    match step {
        PollStep::Wait { timeout_ms } => wait_in_vain(Duration::from_millis(*timeout_ms)),
        PollStep::Ready(_) => Ok(()),
    }
}

#[test]
fn default_timeout_is_two_seconds() {
    assert_eq!(DEFAULT_POLL_TIMEOUT_MS, 2_000);
    assert_eq!(Duration::from_millis(DEFAULT_POLL_TIMEOUT_MS), Duration::from_secs(2));
    let mut manager = ClPlayerManager::new();
    assert_eq!(manager.poll_timeout(), 2_000);
    assert_eq!(manager.poll_next_event(), PollStep::Wait { timeout_ms: 2_000 });
}

#[test]
fn polls_wait_for_the_configured_timeout() {
    let mut manager = ClPlayerManager::with_timeout(250);
    assert_eq!(manager.poll_timeout(), 250);
    assert_eq!(manager.poll_next_event(), PollStep::Wait { timeout_ms: 250 });
    manager.update_sessions(vec!["App1".to_string()], None);
    let player = manager.get_session("App1".to_string()).unwrap();
    assert_eq!(player.poll_next_event(&mut manager), Ok(PollStep::Wait { timeout_ms: 250 }));

    manager.set_poll_timeout(0);
    assert_eq!(manager.poll_timeout(), 0);
    assert_eq!(player.poll_next_event(&mut manager), Ok(PollStep::Wait { timeout_ms: 0 }));
    assert_eq!(manager.poll_next_event(), PollStep::Ready(Outcome::Event(ManagerEvent::SessionsChanged)));
    assert_eq!(manager.poll_next_event(), PollStep::Wait { timeout_ms: 0 });
    assert_eq!(manager.get_sessions_keys(), vec!["App1".to_string()]);
}

#[test]
fn a_poll_on_a_silent_source_ends_after_the_timeout_it_asked_for() {
    let mut manager = ClPlayerManager::with_timeout(40);
    let step = manager.poll_next_event();
    let started = Instant::now();
    let waited = wait_as_asked(&step);
    let took = started.elapsed();
    assert!(took >= Duration::from_millis(40));
    assert!(took < Duration::from_millis(40) + Duration::from_secs(5));
    assert_eq!(manager.finish_poll(waited), Outcome::TimedOut);
}

#[test]
fn bounded_poller_maps_the_three_ways_a_wait_can_end() {
    assert_eq!(
        poll_with_timeout(Ok(Some(SessionEvent::PlaybackInfoChanged))),
        Outcome::Event(SessionEvent::PlaybackInfoChanged)
    );
    assert_eq!(poll_with_timeout::<SessionEvent>(Ok(None)), Outcome::NoEvent);
    assert_eq!(poll_with_timeout::<SessionEvent>(Err(elapsed())), Outcome::TimedOut);
    assert_eq!(poll_with_timeout::<ManagerEvent>(Err(elapsed())), Outcome::TimedOut);
}

#[test]
fn a_silent_source_times_out_within_the_limit() {
    let mut manager = ClPlayerManager::new();
    assert_eq!(manager.poll_next_event(), PollStep::Wait { timeout_ms: 2_000 });
    let limit = Duration::from_millis(50);
    let started = Instant::now();
    let waited = wait_in_vain(limit);
    let took = started.elapsed();
    assert!(waited.is_err());
    assert!(took >= limit);
    assert!(took < limit + Duration::from_secs(5));
    assert_eq!(manager.finish_poll(waited), Outcome::TimedOut);
}

#[test]
fn repeated_timeouts_stay_timeouts() {
    let mut manager = ClPlayerManager::new();
    for _ in 0..3 {
        assert_eq!(manager.poll_next_event(), PollStep::Wait { timeout_ms: 2_000 });
        assert_eq!(manager.finish_poll(wait_in_vain(Duration::from_millis(5))), Outcome::TimedOut);
    }
}

#[test]
fn a_timeout_leaves_a_late_event_for_the_next_poll() {
    let mut manager = ClPlayerManager::new();
    assert_eq!(manager.poll_next_event(), PollStep::Wait { timeout_ms: 2_000 });
    let waited = wait_in_vain(Duration::from_millis(5));
    manager.notify(ManagerEvent::SessionsChanged);
    assert_eq!(manager.finish_poll(waited), Outcome::TimedOut);
    assert_eq!(manager.poll_next_event(), PollStep::Ready(Outcome::Event(ManagerEvent::SessionsChanged)));
    assert_eq!(manager.poll_next_event(), PollStep::Wait { timeout_ms: 2_000 });
}

#[test]
fn a_notification_in_time_ends_the_wait_with_the_event() {
    let mut manager = ClPlayerManager::new();
    assert_eq!(manager.poll_next_event(), PollStep::Wait { timeout_ms: 2_000 });
    manager.notify(ManagerEvent::SystemSessionChanged);
    let waited = wait_notified(Duration::from_millis(DEFAULT_POLL_TIMEOUT_MS));
    assert!(waited.is_ok());
    assert_eq!(manager.finish_poll(waited), Outcome::Event(ManagerEvent::SystemSessionChanged));
    assert_eq!(manager.poll_next_event(), PollStep::Wait { timeout_ms: 2_000 });
}

#[test]
fn a_wake_without_an_event_is_no_event() {
    let mut manager = ClPlayerManager::new();
    assert_eq!(manager.poll_next_event(), PollStep::Wait { timeout_ms: 2_000 });
    assert_eq!(manager.finish_poll(wait_notified(Duration::from_secs(1))), Outcome::NoEvent);
}

#[test]
fn session_poll_times_out_like_the_registry_poll() {
    let mut manager = ClPlayerManager::new();
    manager.update_sessions(vec!["App1".to_string()], None);
    let player = manager.get_session("App1".to_string()).unwrap();
    assert_eq!(player.poll_next_event(&mut manager), Ok(PollStep::Wait { timeout_ms: 2_000 }));
    assert_eq!(player.finish_poll(&mut manager, Err(elapsed())), Ok(Outcome::TimedOut));
    assert_eq!(player.notify(&mut manager, SessionEvent::PlaybackInfoChanged), Ok(()));
    assert_eq!(player.finish_poll(&mut manager, Err(elapsed())), Ok(Outcome::TimedOut));
    assert_eq!(
        player.poll_next_event(&mut manager),
        Ok(PollStep::Ready(Outcome::Event(SessionEvent::PlaybackInfoChanged)))
    );
}

#[test]
fn registry_notifications_are_latest_wins() {
    let mut manager = ClPlayerManager::new();
    manager.notify(ManagerEvent::SessionsChanged);
    manager.notify(ManagerEvent::ActiveSessionChanged);
    assert_eq!(manager.poll_next_event(), PollStep::Ready(Outcome::Event(ManagerEvent::ActiveSessionChanged)));
    assert_eq!(manager.poll_next_event(), PollStep::Wait { timeout_ms: 2_000 });
}

#[test]
fn event_slot_keeps_one_event() {
    let mut slot: EventSlot<SessionEvent> = EventSlot::new();
    assert_eq!(slot.peek(), None);
    assert_eq!(slot.take(), None);
    slot.notify(SessionEvent::PlaybackInfoChanged);
    slot.notify(SessionEvent::TimelinePropertiesChanged);
    assert_eq!(slot.peek(), Some(SessionEvent::TimelinePropertiesChanged));
    assert_eq!(slot.take(), Some(SessionEvent::TimelinePropertiesChanged));
    assert_eq!(slot.take(), None);
    slot.notify(SessionEvent::MediaPropertiesChanged);
    assert_eq!(slot.finish_poll(Err(elapsed())), Outcome::TimedOut);
    assert_eq!(slot.finish_poll(Ok(())), Outcome::Event(SessionEvent::MediaPropertiesChanged));
    assert_eq!(slot.finish_poll(Ok(())), Outcome::NoEvent);
    assert_eq!(slot.poll_next_event(7), PollStep::Wait { timeout_ms: 7 });
    slot.notify(SessionEvent::PlaybackInfoChanged);
    assert_eq!(slot.poll_next_event(7), PollStep::Ready(Outcome::Event(SessionEvent::PlaybackInfoChanged)));
}

#[test]
fn outcomes_of_a_session_poll_are_named() {
    assert_eq!(Outcome::Event(SessionEvent::PlaybackInfoChanged).label(), "PlaybackInfoChanged");
    assert_eq!(Outcome::Event(SessionEvent::MediaPropertiesChanged).label(), "MediaPropertiesChanged");
    assert_eq!(Outcome::Event(SessionEvent::TimelinePropertiesChanged).label(), "TimelinePropertiesChanged");
    assert_eq!(Outcome::<SessionEvent>::NoEvent.label(), "None");
    assert_eq!(Outcome::<SessionEvent>::TimedOut.label(), "Timeout");
    assert_eq!(poll_with_timeout::<SessionEvent>(Err(elapsed())).label(), "Timeout");
}

#[test]
fn outcomes_of_a_registry_poll_are_named() {
    assert_eq!(Outcome::Event(ManagerEvent::ActiveSessionChanged).label(), "ActiveSessionChanged");
    assert_eq!(Outcome::Event(ManagerEvent::SystemSessionChanged).label(), "SystemSessionChanged");
    assert_eq!(Outcome::Event(ManagerEvent::SessionsChanged).label(), "SessionsChanged");
    assert_eq!(Outcome::<ManagerEvent>::NoEvent.label(), "None");
    assert_eq!(Outcome::<ManagerEvent>::TimedOut.label(), "Timeout");
    assert_eq!(SessionEvent::PlaybackInfoChanged.label(), "PlaybackInfoChanged");
    assert_eq!(ManagerEvent::SessionsChanged.label(), "SessionsChanged");
}
