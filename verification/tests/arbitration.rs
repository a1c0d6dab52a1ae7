use media_sessions::clplayermanager::{ClPlayerManager, SessionStatus};
use media_sessions::events::{ManagerEvent, Outcome, PollStep};

const STOPPED: i32 = 3;
const PLAYING: i32 = 4;
const PAUSED: i32 = 5;

fn names(list: &[&str]) -> Vec<String> {
    list.iter().map(|name| name.to_string()).collect()
}

fn report(aumid: &str, code: i32) -> SessionStatus {
    SessionStatus { aumid: aumid.to_string(), code }
}

fn registry(list: &[&str]) -> ClPlayerManager {
    let mut manager = ClPlayerManager::new();
    manager.update_sessions(names(list), None);
    manager
}

#[test]
fn first_playing_session_wins_over_an_earlier_paused_one() {
    let mut manager = registry(&["A", "B", "C"]);
    let snapshot = vec![report("A", PAUSED), report("B", PLAYING), report("C", PLAYING)];
    assert_eq!(manager.figure_out_active_session(&snapshot), Some("B".to_string()));
}

#[test]
fn arbitration_is_the_same_on_every_run() {
    let snapshot = vec![report("A", PAUSED), report("B", PLAYING), report("C", PLAYING)];
    let mut first = registry(&["A", "B", "C"]);
    let mut second = registry(&["A", "B", "C"]);
    second.notify(ManagerEvent::SystemSessionChanged);
    second.update_system_session(Some("C".to_string()));
    let a = first.figure_out_active_session(&snapshot);
    let b = first.figure_out_active_session(&snapshot);
    let c = second.figure_out_active_session(&snapshot);
    assert_eq!(a, Some("B".to_string()));
    assert_eq!(a, b);
    assert_eq!(a, c);
}

#[test]
fn registry_order_decides_not_snapshot_order() {
    let mut manager = registry(&["A", "B", "C"]);
    let snapshot = vec![report("C", PLAYING), report("B", PLAYING), report("A", PAUSED)];
    assert_eq!(manager.figure_out_active_session(&snapshot), Some("B".to_string()));
}

#[test]
fn first_paused_session_wins_when_none_is_playing() {
    let mut manager = registry(&["A", "B", "C"]);
    let snapshot = vec![report("A", STOPPED), report("B", PAUSED), report("C", PAUSED)];
    assert_eq!(manager.figure_out_active_session(&snapshot), Some("B".to_string()));
}

#[test]
fn no_session_playing_or_paused_gives_none() {
    let mut manager = registry(&["A", "B", "C"]);
    let snapshot = vec![report("A", 0), report("B", 1), report("C", 2), report("A", STOPPED)];
    assert_eq!(manager.figure_out_active_session(&snapshot), None);
    assert!(manager.get_active_session().is_none());
}

#[test]
fn empty_registry_or_empty_snapshot_gives_none() {
    let mut empty = ClPlayerManager::new();
    assert_eq!(empty.figure_out_active_session(&vec![report("A", PLAYING)]), None);
    let mut manager = registry(&["A"]);
    assert_eq!(manager.figure_out_active_session(&Vec::new()), None);
}

#[test]
fn codes_outside_the_canonical_ones_count_for_nothing() {
    let mut manager = registry(&["A", "B"]);
    let snapshot = vec![report("A", 6), report("A", -1), report("B", 44)];
    assert_eq!(manager.figure_out_active_session(&snapshot), None);
}

#[test]
fn untracked_sessions_in_the_snapshot_are_passed_over() {
    let mut manager = registry(&["A", "B"]);
    let snapshot = vec![report("Z", PLAYING), report("B", PAUSED)];
    assert_eq!(manager.figure_out_active_session(&snapshot), Some("B".to_string()));
}

#[test]
fn a_tracked_session_without_an_entry_is_passed_over() {
    let mut manager = registry(&["A", "B"]);
    let snapshot = vec![report("B", PLAYING)];
    assert_eq!(manager.figure_out_active_session(&snapshot), Some("B".to_string()));
}

#[test]
fn any_playing_entry_for_a_session_makes_it_playing() {
    let mut manager = registry(&["A", "B"]);
    let snapshot = vec![report("A", PAUSED), report("B", PAUSED), report("B", PLAYING)];
    assert_eq!(manager.figure_out_active_session(&snapshot), Some("B".to_string()));
}

#[test]
fn active_session_follows_the_playing_app_then_the_paused_one() {
    let mut manager = registry(&["App1", "App2"]);
    let chosen = manager.figure_out_active_session(&vec![report("App1", PLAYING), report("App2", PAUSED)]);
    assert_eq!(chosen, Some("App1".to_string()));
    let active = manager.get_active_session().unwrap();
    assert_eq!(active.get_aumid(), "App1");
    assert!(!active.is_system());

    let chosen = manager.figure_out_active_session(&vec![report("App1", STOPPED), report("App2", PAUSED)]);
    assert_eq!(chosen, Some("App2".to_string()));
    assert_eq!(manager.get_active_session().unwrap().get_aumid(), "App2");
}

#[test]
fn a_change_of_the_active_session_is_notified_once() {
    let mut manager = registry(&["App1", "App2"]);
    assert_eq!(manager.poll_next_event(), PollStep::Ready(Outcome::Event(ManagerEvent::SessionsChanged)));

    manager.figure_out_active_session(&vec![report("App1", PLAYING)]);
    assert_eq!(manager.poll_next_event(), PollStep::Ready(Outcome::Event(ManagerEvent::ActiveSessionChanged)));

    manager.figure_out_active_session(&vec![report("App1", PLAYING), report("App2", PAUSED)]);
    assert_eq!(manager.poll_next_event(), PollStep::Wait { timeout_ms: 2_000 });

    manager.figure_out_active_session(&vec![report("App2", PAUSED)]);
    assert_eq!(manager.poll_next_event(), PollStep::Ready(Outcome::Event(ManagerEvent::ActiveSessionChanged)));

    manager.figure_out_active_session(&Vec::new());
    assert_eq!(manager.poll_next_event(), PollStep::Ready(Outcome::Event(ManagerEvent::ActiveSessionChanged)));
    assert!(manager.get_active_session().is_none());
}
