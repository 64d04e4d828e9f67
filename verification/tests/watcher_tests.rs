use harness_desktop::server::{ServerState, START_TIMEOUT_NANOS};
use harness_desktop::watcher::{WatchEvent, WatchVerdict, Watcher, POLL_INTERVAL_MILLIS};

fn probed(up: bool, now: u64) -> WatchEvent {
    WatchEvent::Probed { up, now }
}

#[test]
fn watch_reports_ready_once_and_then_lost() {
    let mut w = Watcher::new(3080, 100);
    assert_eq!(w.observe(probed(false, 200)), WatchVerdict::KeepWatching);
    assert_eq!(w.observe(probed(true, 300)), WatchVerdict::Ready);
    assert_eq!(w.observe(probed(true, 400)), WatchVerdict::KeepWatching);
    assert_eq!(
        w.observe(probed(true, 100 + 2 * START_TIMEOUT_NANOS)),
        WatchVerdict::KeepWatching
    );
    assert_eq!(
        w.observe(probed(false, 100 + 3 * START_TIMEOUT_NANOS)),
        WatchVerdict::Lost
    );
}

#[test]
fn watch_times_out_after_the_limit() {
    let mut w = Watcher::new(3080, 100);
    assert_eq!(
        w.observe(probed(false, 100 + START_TIMEOUT_NANOS)),
        WatchVerdict::KeepWatching
    );
    assert_eq!(
        w.observe(probed(false, 101 + START_TIMEOUT_NANOS)),
        WatchVerdict::TimedOut
    );
}

#[test]
fn watch_that_answers_late_is_ready() {
    let mut w = Watcher::new(3080, 0);
    assert_eq!(
        w.observe(probed(true, 2 * START_TIMEOUT_NANOS)),
        WatchVerdict::Ready
    );
}

#[test]
fn watch_limit_does_not_wrap() {
    let mut w = Watcher::new(3080, u64::MAX - 5);
    assert_eq!(w.observe(probed(false, u64::MAX)), WatchVerdict::KeepWatching);
    assert_eq!(w.observe(probed(false, 0)), WatchVerdict::KeepWatching);
}

#[test]
fn stop_request_ends_the_watch() {
    let mut w = Watcher::new(3080, 0);
    assert_eq!(w.observe(WatchEvent::StopRequested), WatchVerdict::Stopped);
    w.observe(probed(true, 1));
    assert_eq!(w.observe(WatchEvent::StopRequested), WatchVerdict::Stopped);
}

#[test]
fn some_verdicts_end_the_watch() {
    assert!(WatchVerdict::Stopped.ends_watch());
    assert!(WatchVerdict::TimedOut.ends_watch());
    assert!(WatchVerdict::Lost.ends_watch());
    assert!(!WatchVerdict::Ready.ends_watch());
    assert!(!WatchVerdict::KeepWatching.ends_watch());
    assert_eq!(POLL_INTERVAL_MILLIS, 500);
}

#[test]
fn some_verdicts_are_reported() {
    assert!(WatchVerdict::Ready.is_reported());
    assert!(WatchVerdict::TimedOut.is_reported());
    assert!(WatchVerdict::Lost.is_reported());
    assert!(!WatchVerdict::KeepWatching.is_reported());
    assert!(!WatchVerdict::Stopped.is_reported());
}

#[test]
fn only_ready_is_reported_without_a_manager() {
    let w = Watcher::new(3080, 0);
    let s = w.unmanaged_status(WatchVerdict::Ready).unwrap();
    assert_eq!(s.state, ServerState::Running);
    assert_eq!(s.port, 3080);
    assert_eq!(s.url, "http://127.0.0.1:3080");
    assert_eq!(s.error, None);
    assert_eq!(s.elapsed_secs, None);
    assert!(w.unmanaged_status(WatchVerdict::TimedOut).is_none());
    assert!(w.unmanaged_status(WatchVerdict::Lost).is_none());
    assert!(w.unmanaged_status(WatchVerdict::Stopped).is_none());
    assert!(w.unmanaged_status(WatchVerdict::KeepWatching).is_none());
}
