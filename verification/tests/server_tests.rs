use harness_desktop::server::{
    boot_failure, kill_arguments, launch_command, server_url, ServerManager, ServerState, StartEvent, StartStep,
    DEFAULT_PORT, HOST, LOG_FILE_NAME, LOG_TAIL_LINES, NANOS_PER_SEC, START_TIMEOUT_NANOS,
    STATUS_EVENT,
};
use harness_desktop::watcher::WatchVerdict;
use std::path::PathBuf;

const PORT_TAKEN: &str = "端口 3080 已被其他程序占用，请关闭占用程序后重试";

fn log_dir() -> PathBuf {
    PathBuf::from("logs")
}

fn log_path() -> PathBuf {
    log_dir().join(LOG_FILE_NAME)
}

/// Walks a start up to the launch and gives the launch step.
fn walk_to_spawn(m: &mut ServerManager, first: StartStep) -> StartStep {
    let step = m.advance_start(first, StartEvent::HarnessProbed(false), 1);
    assert!(matches!(step, StartStep::ProbePort));
    let step = m.advance_start(step, StartEvent::PortProbed(false), 2);
    assert!(matches!(step, StartStep::LocateLogDir));
    let step = m.advance_start(step, StartEvent::LogDirLocated(Ok(log_dir())), 3);
    match &step {
        StartStep::CreateLogDir { dir } => assert_eq!(dir, &log_dir()),
        other => panic!("{:?}", other),
    }
    let step = m.advance_start(step, StartEvent::LogDirCreated(Ok(())), 4);
    match &step {
        StartStep::CreateLogFile { place } => {
            assert_eq!(place.base, log_dir());
            assert_eq!(place.parts, vec!["dsh-server.log"]);
        }
        other => panic!("{:?}", other),
    }
    let step = m.advance_start(step, StartEvent::LogFileCreated(Ok(log_path())), 5);
    assert!(matches!(step, StartStep::DuplicateLogHandle { .. }));
    m.advance_start(step, StartEvent::LogHandleDuplicated(Ok(())), 6)
}

fn launched(pid: u32, now: u64) -> ServerManager {
    let mut m = ServerManager::new(DEFAULT_PORT);
    let first = m.start();
    let spawn = walk_to_spawn(&mut m, first);
    let end = m.advance_start(spawn, StartEvent::ServerSpawned(Ok(pid)), now);
    assert!(matches!(end, StartStep::Finish { emit: true, watch: true, result: Ok(()) }));
    m
}

fn failure(step: StartStep) -> String {
    match step {
        StartStep::Finish { emit: false, watch: false, result: Err(message) } => message,
        other => panic!("{:?}", other),
    }
}

#[test]
fn constants() {
    assert_eq!(HOST, "127.0.0.1");
    assert_eq!(DEFAULT_PORT, 3080);
    assert_eq!(START_TIMEOUT_NANOS, 300 * NANOS_PER_SEC);
    assert_eq!(LOG_FILE_NAME, "dsh-server.log");
    assert_eq!(LOG_TAIL_LINES, 200);
    assert_eq!(STATUS_EVENT, "server-status");
}

#[test]
fn url_names_host_and_port() {
    assert_eq!(ServerManager::new(3080).url(), "http://127.0.0.1:3080");
    assert_eq!(server_url(0), "http://127.0.0.1:0");
    assert_eq!(server_url(65535), "http://127.0.0.1:65535");
    assert_ne!(server_url(308), server_url(3080));
}

#[test]
fn launch_command_is_npx() {
    assert_eq!(
        launch_command(3080),
        "npx --yes @deepseek-ai/dsh web --host 127.0.0.1 --port 3080 --no-open"
    );
}

#[test]
fn kill_arguments_name_the_process_tree() {
    assert_eq!(kill_arguments(4711), vec!["/PID", "4711", "/T", "/F"]);
}

#[test]
fn new_manager_is_idle() {
    let m = ServerManager::new(4000);
    assert_eq!(m.port(), 4000);
    assert!(!m.stopping());
    assert!(m.log_path().is_none());
    assert!(m.needs_harness_probe());
    let s = m.status(false, 77);
    assert_eq!(s.state, ServerState::Idle);
    assert_eq!(s.port, 4000);
    assert_eq!(s.url, "http://127.0.0.1:4000");
    assert_eq!(s.error, None);
    assert_eq!(s.elapsed_secs, None);
    assert_eq!(m.into_child(), None);
}

#[test]
fn foreign_harness_counts_as_running() {
    let m = ServerManager::new(3080);
    assert_eq!(m.status(true, 0).state, ServerState::Running);
    let own = launched(5, 0);
    assert!(!own.needs_harness_probe());
    assert_eq!(own.status(true, 0).state, ServerState::Starting);
}

#[test]
fn start_adopts_a_running_harness() {
    let mut m = ServerManager::new(3080);
    let step = m.start();
    assert!(matches!(step, StartStep::ProbeHarness));
    let end = m.advance_start(step, StartEvent::HarnessProbed(true), 10 * NANOS_PER_SEC);
    assert!(matches!(end, StartStep::Finish { emit: true, watch: false, result: Ok(()) }));
    let s = m.status(false, 12 * NANOS_PER_SEC + 999_999_999);
    assert_eq!(s.state, ServerState::Running);
    assert_eq!(s.elapsed_secs, Some(2));
    assert_eq!(m.stop(), None);
    assert!(!m.stopping());
}

#[test]
fn start_refuses_a_taken_port() {
    let mut m = ServerManager::new(3080);
    let step = m.start();
    let step = m.advance_start(step, StartEvent::HarnessProbed(false), 1);
    let end = m.advance_start(step, StartEvent::PortProbed(true), 2);
    match end {
        StartStep::Finish { emit: true, watch: false, result: Err(message) } => {
            assert_eq!(message, PORT_TAKEN)
        }
        other => panic!("{:?}", other),
    }
    let s = m.status(false, 3);
    assert_eq!(s.state, ServerState::Error);
    assert_eq!(s.error.as_deref(), Some(PORT_TAKEN));
    assert_eq!(s.elapsed_secs, None);
}

#[test]
fn start_launches_the_server() {
    let mut m = ServerManager::new(3080);
    let first = m.start();
    match walk_to_spawn(&mut m, first) {
        StartStep::SpawnServer { log_path: path, command_line } => {
            assert_eq!(path, log_path());
            assert_eq!(
                command_line,
                "npx --yes @deepseek-ai/dsh web --host 127.0.0.1 --port 3080 --no-open"
            );
        }
        other => panic!("{:?}", other),
    }
    let m = launched(99, 5 * NANOS_PER_SEC);
    assert_eq!(m.log_path(), Some(&log_path()));
    assert!(!m.stopping());
    let s = m.status(false, 8 * NANOS_PER_SEC);
    assert_eq!(s.state, ServerState::Starting);
    assert_eq!(s.elapsed_secs, Some(3));
    assert_eq!(m.status(false, 0).elapsed_secs, Some(0));
    assert_eq!(m.into_child(), Some(99));
}

#[test]
fn start_is_idempotent() {
    let mut m = launched(99, 5);
    assert!(matches!(
        m.start(),
        StartStep::Finish { emit: false, watch: false, result: Ok(()) }
    ));
    assert_eq!(m.status(false, 5).state, ServerState::Starting);
    m.apply_verdict(WatchVerdict::Ready);
    assert!(matches!(
        m.start(),
        StartStep::Finish { emit: false, watch: false, result: Ok(()) }
    ));
    assert_eq!(m.status(false, 5).state, ServerState::Running);
    assert_eq!(m.into_child(), Some(99));
}

#[test]
fn start_failures_carry_their_messages() {
    let cause = || String::from("denied");
    let at = |n: usize| {
        let mut m = ServerManager::new(3080);
        let step = m.start();
        let step = m.advance_start(step, StartEvent::HarnessProbed(false), 0);
        let mut step = m.advance_start(step, StartEvent::PortProbed(false), 0);
        if n > 0 {
            step = m.advance_start(step, StartEvent::LogDirLocated(Ok(log_dir())), 0);
        }
        if n > 1 {
            step = m.advance_start(step, StartEvent::LogDirCreated(Ok(())), 0);
        }
        if n > 2 {
            step = m.advance_start(step, StartEvent::LogFileCreated(Ok(log_path())), 0);
        }
        if n > 3 {
            step = m.advance_start(step, StartEvent::LogHandleDuplicated(Ok(())), 0);
        }
        let event = match n {
            0 => StartEvent::LogDirLocated(Err(cause())),
            1 => StartEvent::LogDirCreated(Err(cause())),
            2 => StartEvent::LogFileCreated(Err(cause())),
            3 => StartEvent::LogHandleDuplicated(Err(cause())),
            _ => StartEvent::ServerSpawned(Err(cause())),
        };
        let message = failure(m.advance_start(step, event, 0));
        let s = m.status(false, 0);
        assert_eq!(s.state, ServerState::Idle);
        assert_eq!(s.error, None);
        assert_eq!(m.into_child(), None);
        message
    };
    assert_eq!(at(0), "无法获取日志目录: denied");
    assert_eq!(at(1), "无法创建日志目录: denied");
    assert_eq!(at(2), "无法创建日志文件: denied");
    assert_eq!(at(3), "denied");
    assert_eq!(at(4), "无法启动 dsh 服务: denied");
}

#[test]
fn event_out_of_turn_changes_nothing() {
    let mut m = ServerManager::new(3080);
    let step = m.start();
    let step = m.advance_start(step, StartEvent::ServerSpawned(Ok(1)), 9);
    assert!(matches!(step, StartStep::ProbeHarness));
    assert_eq!(m.status(false, 9).state, ServerState::Idle);
    let end = StartStep::Finish { emit: true, watch: true, result: Ok(()) };
    let end = m.advance_start(end, StartEvent::HarnessProbed(true), 9);
    assert!(matches!(end, StartStep::Finish { emit: true, watch: true, result: Ok(()) }));
    assert_eq!(m.into_child(), None);
}

#[test]
fn stop_ends_the_launched_process() {
    let mut m = launched(99, 5);
    assert_eq!(m.stop(), Some(99));
    assert!(m.stopping());
    let s = m.status(false, 9);
    assert_eq!(s.state, ServerState::Idle);
    assert_eq!(s.elapsed_secs, None);
    assert_eq!(m.log_path(), Some(&log_path()));
    assert_eq!(m.stop(), None);
}

#[test]
fn restart_stops_and_starts_from_every_state() {
    let mut m = launched(99, 5);
    m.apply_verdict(WatchVerdict::Ready);
    let plan = m.restart();
    assert_eq!(plan.kill, Some(99));
    assert!(matches!(plan.step, StartStep::ProbeHarness));
    let spawn = walk_to_spawn(&mut m, plan.step);
    m.advance_start(spawn, StartEvent::ServerSpawned(Ok(100)), 9);
    assert!(!m.stopping());
    assert_eq!(m.status(false, 9).state, ServerState::Starting);
    assert_eq!(m.restart().kill, Some(100));
    let plan = m.restart();
    assert_eq!(plan.kill, None);
    assert!(matches!(plan.step, StartStep::ProbeHarness));
}

#[test]
fn verdicts_change_the_state() {
    let mut m = launched(99, 5);
    m.apply_verdict(WatchVerdict::KeepWatching);
    assert_eq!(m.status(false, 5).state, ServerState::Starting);
    m.apply_verdict(WatchVerdict::Ready);
    assert_eq!(m.status(false, 5).state, ServerState::Running);
    m.apply_verdict(WatchVerdict::Lost);
    let s = m.status(false, 5);
    assert_eq!(s.state, ServerState::Error);
    assert_eq!(s.error.as_deref(), Some("服务已停止或崩溃，请查看日志或重启服务。"));
    m.apply_verdict(WatchVerdict::Stopped);
    assert_eq!(m.status(false, 5).state, ServerState::Error);
    m.apply_verdict(WatchVerdict::TimedOut);
    assert_eq!(
        m.status(false, 5).error.as_deref(),
        Some("启动超时（300 秒）。请确认 Node.js 可用，并查看日志。")
    );
    assert!(matches!(m.start(), StartStep::ProbeHarness));
    assert_eq!(m.status(false, 5).error, None);
}

#[test]
fn ready_clears_the_error() {
    let mut m = launched(99, 5);
    m.apply_verdict(WatchVerdict::Lost);
    m.apply_verdict(WatchVerdict::Ready);
    assert_eq!(m.status(false, 5).error, None);
}

#[test]
fn tail_log_needs_a_log() {
    let m = ServerManager::new(3080);
    assert_eq!(m.tail_log(Some("one\ntwo"), 5), "");
    let m = launched(99, 5);
    assert_eq!(m.tail_log(None, 5), "");
    assert_eq!(m.tail_log(Some("one\ntwo\r\nthree\n"), 2), "two\nthree");
}

#[test]
fn payload_can_be_cloned() {
    let s = launched(1, 0).status(false, NANOS_PER_SEC);
    let t = s.clone();
    assert_eq!(t.url, s.url);
    assert_eq!(t.state, ServerState::Starting);
    assert_eq!(t.elapsed_secs, Some(1));
}

#[test]
fn failed_boot_is_reported() {
    let s = boot_failure(String::from("no node"));
    assert_eq!(s.state, ServerState::Error);
    assert_eq!(s.port, 3080);
    assert_eq!(s.url, "http://127.0.0.1:3080");
    assert_eq!(s.error.as_deref(), Some("no node"));
    assert_eq!(s.elapsed_secs, None);
}
