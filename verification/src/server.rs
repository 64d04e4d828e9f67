//! The server manager: which state the local server is in, what a start, stop
//! or restart has to do next, and what is reported about it.

use crate::place::{in_directory, place_in, Place, PlaceView};
use crate::text::{decimal, push_decimal, tail, tail_text};
use crate::watcher::WatchVerdict;
use std::path::PathBuf;
use vstd::prelude::*;

verus! {

/// The address that the server listens on.
pub const HOST: &'static str = "127.0.0.1";

/// The port that the server listens on unless told otherwise.
pub const DEFAULT_PORT: u16 = 3080;

/// How long a launched server may take to answer, in nanoseconds.
pub const START_TIMEOUT_NANOS: u64 = 300_000_000_000;

/// Nanoseconds in a second.
pub const NANOS_PER_SEC: u64 = 1_000_000_000;

/// The name of the server's log file in the log directory.
pub const LOG_FILE_NAME: &'static str = "dsh-server.log";

/// How many lines of the log the diagnostics show.
pub const LOG_TAIL_LINES: usize = 200;

/// The name of the event that carries a `StatusPayload`.
pub const STATUS_EVENT: &'static str = "server-status";

/// The shell that runs a command line.
pub const SHELL: &'static str = "cmd";

/// The flag that makes the shell run the command line that follows.
pub const SHELL_RUN_FLAG: &'static str = "/C";

/// The creation flag of a process without a console window.
pub const NO_WINDOW_FLAG: u32 = 0x0800_0000;

/// The program that ends a process and all that it launched.
pub const KILL_PROGRAM: &'static str = "taskkill";

/// What the server is doing.
#[derive(Clone, Copy, PartialEq, Eq, Structural, Debug)]
pub enum ServerState {
    Idle,
    Starting,
    Running,
    Error,
}

/// A report on the server.
#[derive(Clone, Debug)]
pub struct StatusPayload {
    pub state: ServerState,
    pub port: u16,
    pub url: String,
    pub error: Option<String>,
    pub elapsed_secs: Option<u64>,
}

/// What a `StatusPayload` says.
pub struct StatusView {
    pub state: ServerState,
    pub port: u16,
    pub url: Seq<char>,
    pub error: Option<Seq<char>>,
    pub elapsed_secs: Option<u64>,
}

/// The text of a string that may be missing.
pub open spec fn text_of(s: Option<String>) -> Option<Seq<char>> {
    match s {
        Some(s) => Some(s@),
        None => None,
    }
}

impl View for StatusPayload {
    type V = StatusView;

    open spec fn view(&self) -> StatusView {
        StatusView {
            state: self.state,
            port: self.port,
            url: self.url@,
            error: text_of(self.error),
            elapsed_secs: self.elapsed_secs,
        }
    }
}

/// The address of the server's web page on `port`.
pub open spec fn url_text(port: u16) -> Seq<char> {
    "http://"@ + HOST@ + ":"@ + decimal(port as nat)
}

/// The address of the server's web page on `port`.
pub fn server_url(port: u16) -> (url: String)
    ensures
        url@ == url_text(port),
{
    let mut url = String::new();
    url.append("http://");
    url.append(HOST);
    url.append(":");
    push_decimal(&mut url, port as u32);
    assert(url@ =~= url_text(port));
    url
}

/// The report on a server whose start at boot failed with `message`.
pub open spec fn boot_report(message: Seq<char>) -> StatusView {
    StatusView {
        state: ServerState::Error,
        port: DEFAULT_PORT,
        url: url_text(DEFAULT_PORT),
        error: Some(message),
        elapsed_secs: None,
    }
}

/// The report on a server whose start at boot failed with `message`.
pub fn boot_failure(message: String) -> (payload: StatusPayload)
    ensures
        payload@ == (StatusView {
            state: ServerState::Error,
            port: DEFAULT_PORT,
            url: url_text(DEFAULT_PORT),
            error: Some(message@),
            elapsed_secs: None,
        }),
        payload@ == boot_report(message@),
{
    StatusPayload {
        state: ServerState::Error,
        port: DEFAULT_PORT,
        url: server_url(DEFAULT_PORT),
        error: Some(message),
        elapsed_secs: None,
    }
}

/// The command line that launches the server on `port`.
pub open spec fn launch_text(port: u16) -> Seq<char> {
    "npx --yes @deepseek-ai/dsh web --host "@ + HOST@ + " --port "@ + decimal(port as nat)
        + " --no-open"@
}

/// The command line that launches the server on `port`.
pub fn launch_command(port: u16) -> (line: String)
    ensures
        line@ == launch_text(port),
{
    let mut line = String::new();
    line.append("npx --yes @deepseek-ai/dsh web --host ");
    line.append(HOST);
    line.append(" --port ");
    push_decimal(&mut line, port as u32);
    line.append(" --no-open");
    assert(line@ =~= launch_text(port));
    line
}

/// The arguments that make `KILL_PROGRAM` end the process `pid` and all that it
/// launched.
pub open spec fn kill_texts(pid: u32) -> Seq<Seq<char>> {
    seq!["/PID"@, decimal(pid as nat), "/T"@, "/F"@]
}

/// The arguments that make `KILL_PROGRAM` end the process `pid` and all that it
/// launched.
pub fn kill_arguments(pid: u32) -> (arguments: Vec<String>)
    ensures
        arguments@.map_values(|argument: String| argument@) == kill_texts(pid),
{
    let mut number = String::new();
    push_decimal(&mut number, pid);
    assert(number@ =~= decimal(pid as nat));
    let mut arguments: Vec<String> = Vec::new();
    arguments.push("/PID".to_string());
    arguments.push(number);
    arguments.push("/T".to_string());
    arguments.push("/F".to_string());
    assert(arguments@.map_values(|argument: String| argument@) =~= kill_texts(pid));
    arguments
}

/// The message for a port that some other program holds.
pub open spec fn port_taken_text(port: u16) -> Seq<char> {
    "端口 "@ + decimal(port as nat) + " 已被其他程序占用，请关闭占用程序后重试"@
}

fn port_taken_message(port: u16) -> (message: String)
    ensures
        message@ == port_taken_text(port),
{
    let mut message = String::new();
    message.append("端口 ");
    push_decimal(&mut message, port as u32);
    message.append(" 已被其他程序占用，请关闭占用程序后重试");
    assert(message@ =~= port_taken_text(port));
    message
}

/// The message for a server that did not answer in time.
pub open spec fn timeout_text() -> Seq<char> {
    "启动超时（300 秒）。请确认 Node.js 可用，并查看日志。"@
}

/// The message for a server that answered and then went away.
pub open spec fn lost_text() -> Seq<char> {
    "服务已停止或崩溃，请查看日志或重启服务。"@
}

/// `prefix` followed by `cause`.
fn explain(prefix: &str, cause: &String) -> (message: String)
    ensures
        message@ == prefix@ + cause@,
{
    let mut message = String::new();
    message.append(prefix);
    message.append(cause.as_str());
    assert(message@ =~= prefix@ + cause@);
    message
}

/// The state of a server manager.
pub struct ServerView {
    /// The port of the server.
    pub port: u16,
    /// The process that was launched and not stopped since.
    pub child: Option<u32>,
    /// What the server is doing.
    pub state: ServerState,
    /// What went wrong last.
    pub error: Option<Seq<char>>,
    /// When the server was launched or adopted, in nanoseconds.
    pub started_at: Option<u64>,
    /// The log of the last launched server.
    pub log_path: Option<PathBuf>,
    /// The watch over the launched server is to end.
    pub stopping: bool,
}

impl ServerView {
    /// What holds of a server manager at all times.
    pub open spec fn wf(self) -> bool {
        &&& self.child is Some ==> {
            &&& !self.stopping
            &&& self.started_at is Some
            &&& self.log_path is Some
        }
        &&& self.state == ServerState::Idle ==> self.child is None && self.started_at is None
        &&& self.state == ServerState::Starting ==> self.child is Some
        &&& self.state == ServerState::Starting || self.state == ServerState::Running
            ==> self.error is None
    }

    /// A start has something to do: the server is neither up nor on its way up.
    pub open spec fn startable(self) -> bool {
        self.state == ServerState::Idle || self.state == ServerState::Error
    }

    /// A start is under way and has neither succeeded nor failed.
    pub open spec fn start_pending(self) -> bool {
        self.startable() && self.error is None
    }
}

/// A manager that was just made.
pub open spec fn new_server(port: u16) -> ServerView {
    ServerView {
        port,
        child: None,
        state: ServerState::Idle,
        error: None,
        started_at: None,
        log_path: None,
        stopping: false,
    }
}

/// Whole seconds from `since` to `now`, none where `now` is earlier.
pub open spec fn seconds_between(since: u64, now: u64) -> u64 {
    if now >= since {
        ((now - since) / NANOS_PER_SEC as int) as u64
    } else {
        0
    }
}

/// The report on a server. A server that this manager did not launch, but that
/// answers as a harness, counts as running.
pub open spec fn status_of(m: ServerView, harness_found: bool, now: u64) -> StatusView {
    StatusView {
        state: if m.child is None && harness_found {
            ServerState::Running
        } else {
            m.state
        },
        port: m.port,
        url: url_text(m.port),
        error: m.error,
        elapsed_secs: match m.started_at {
            Some(since) => Some(seconds_between(since, now)),
            None => None,
        },
    }
}

/// A report on the server needs to know whether the port serves the harness.
pub open spec fn probe_needed(m: ServerView) -> bool {
    m.child is None
}

/// The watch over the launched server is to end.
pub open spec fn watch_is_over(m: ServerView) -> bool {
    m.stopping
}

/// The log of the last launched server.
pub open spec fn log_of(m: ServerView) -> Option<PathBuf> {
    m.log_path
}

/// The process that a stop ends.
pub open spec fn to_kill(m: ServerView) -> Option<u32> {
    m.child
}

/// The last `max` lines of the log, where `content` is what could be read of it.
pub open spec fn log_tail(m: ServerView, content: Option<Seq<char>>, max: nat) -> Seq<char> {
    match content {
        Some(content) if m.log_path is Some => tail_text(content, max),
        _ => Seq::empty(),
    }
}

/// A manager after a stop.
pub open spec fn stopped(m: ServerView) -> ServerView {
    ServerView {
        child: None,
        state: ServerState::Idle,
        started_at: None,
        stopping: m.stopping || m.child is Some,
        ..m
    }
}

/// A manager after a round of the watch came to `verdict`.
pub open spec fn watched(m: ServerView, verdict: WatchVerdict) -> ServerView {
    match verdict {
        WatchVerdict::Ready => ServerView { state: ServerState::Running, error: None, ..m },
        WatchVerdict::TimedOut => ServerView {
            state: ServerState::Error,
            error: Some(timeout_text()),
            ..m
        },
        WatchVerdict::Lost => ServerView {
            state: ServerState::Error,
            error: Some(lost_text()),
            ..m
        },
        WatchVerdict::KeepWatching | WatchVerdict::Stopped => m,
    }
}

// ---------------------------------------------------------------------------
// Starting
// ---------------------------------------------------------------------------

/// What a start asks for next.
#[derive(Debug)]
pub enum StartStep {
    /// Ask the port whether it serves the harness.
    ProbeHarness,
    /// Ask whether anything listens on the port.
    ProbePort,
    /// Find the log directory.
    LocateLogDir,
    /// Make the log directory `dir`.
    CreateLogDir { dir: PathBuf },
    /// Make the log file at `place`.
    CreateLogFile { place: Place },
    /// Make a second handle of the log, for the other output stream.
    DuplicateLogHandle { log_path: PathBuf },
    /// Run the command line, with both output streams going to the log.
    SpawnServer { log_path: PathBuf, command_line: String },
    /// The start is over: report the status if `emit`, watch the server if
    /// `watch`, and give `result` to the caller.
    Finish { emit: bool, watch: bool, result: Result<(), String> },
}

/// How the work that a step asked for came out.
#[derive(Debug)]
pub enum StartEvent {
    HarnessProbed(bool),
    PortProbed(bool),
    LogDirLocated(Result<PathBuf, String>),
    LogDirCreated(Result<(), String>),
    LogFileCreated(Result<PathBuf, String>),
    LogHandleDuplicated(Result<(), String>),
    ServerSpawned(Result<u32, String>),
}

/// What a `StartStep` says.
pub enum StartStepView {
    ProbeHarness,
    ProbePort,
    LocateLogDir,
    CreateLogDir { dir: PathBuf },
    CreateLogFile { place: PlaceView },
    DuplicateLogHandle { log_path: PathBuf },
    SpawnServer { log_path: PathBuf, command_line: Seq<char> },
    Finish { emit: bool, watch: bool, result: Result<(), Seq<char>> },
}

/// What a `StartEvent` says.
pub enum StartEventView {
    HarnessProbed(bool),
    PortProbed(bool),
    LogDirLocated(Result<PathBuf, Seq<char>>),
    LogDirCreated(Result<(), Seq<char>>),
    LogFileCreated(Result<PathBuf, Seq<char>>),
    LogHandleDuplicated(Result<(), Seq<char>>),
    ServerSpawned(Result<u32, Seq<char>>),
}

/// A result with the text of its error.
pub open spec fn result_of<T>(r: Result<T, String>) -> Result<T, Seq<char>> {
    match r {
        Ok(v) => Ok(v),
        Err(e) => Err(e@),
    }
}

impl View for StartStep {
    type V = StartStepView;

    open spec fn view(&self) -> StartStepView {
        match *self {
            StartStep::ProbeHarness => StartStepView::ProbeHarness,
            StartStep::ProbePort => StartStepView::ProbePort,
            StartStep::LocateLogDir => StartStepView::LocateLogDir,
            StartStep::CreateLogDir { dir } => StartStepView::CreateLogDir { dir },
            StartStep::CreateLogFile { place } => StartStepView::CreateLogFile { place: place@ },
            StartStep::DuplicateLogHandle { log_path } => StartStepView::DuplicateLogHandle {
                log_path,
            },
            StartStep::SpawnServer { log_path, command_line } => StartStepView::SpawnServer {
                log_path,
                command_line: command_line@,
            },
            StartStep::Finish { emit, watch, result } => StartStepView::Finish {
                emit,
                watch,
                result: result_of(result),
            },
        }
    }
}

impl View for StartEvent {
    type V = StartEventView;

    open spec fn view(&self) -> StartEventView {
        match *self {
            StartEvent::HarnessProbed(found) => StartEventView::HarnessProbed(found),
            StartEvent::PortProbed(taken) => StartEventView::PortProbed(taken),
            StartEvent::LogDirLocated(r) => StartEventView::LogDirLocated(result_of(r)),
            StartEvent::LogDirCreated(r) => StartEventView::LogDirCreated(result_of(r)),
            StartEvent::LogFileCreated(r) => StartEventView::LogFileCreated(result_of(r)),
            StartEvent::LogHandleDuplicated(r) => StartEventView::LogHandleDuplicated(
                result_of(r),
            ),
            StartEvent::ServerSpawned(r) => StartEventView::ServerSpawned(result_of(r)),
        }
    }
}

/// The end of a start that failed without a status report.
pub open spec fn failed_start(message: Seq<char>) -> StartStepView {
    StartStepView::Finish { emit: false, watch: false, result: Err(message) }
}

/// The manager and the first step of a start. A start of a server that is up or
/// on its way up is over at once and changes nothing.
pub open spec fn start_begun(m: ServerView) -> (ServerView, StartStepView) {
    if m.startable() {
        (ServerView { error: None, ..m }, StartStepView::ProbeHarness)
    } else {
        (m, StartStepView::Finish { emit: false, watch: false, result: Ok(()) })
    }
}

/// The manager and the next step once the work of `step` came out as `event`, at
/// the time `now`. An event that is not the outcome of the step changes nothing,
/// and the step stays to be done.
pub open spec fn start_advanced(
    m: ServerView,
    step: StartStepView,
    event: StartEventView,
    now: u64,
) -> (ServerView, StartStepView) {
    match (step, event) {
        (StartStepView::ProbeHarness, StartEventView::HarnessProbed(found)) => if found {
            (
                ServerView { state: ServerState::Running, started_at: Some(now), ..m },
                StartStepView::Finish { emit: true, watch: false, result: Ok(()) },
            )
        } else {
            (m, StartStepView::ProbePort)
        },
        (StartStepView::ProbePort, StartEventView::PortProbed(taken)) => if taken {
            (
                ServerView {
                    state: ServerState::Error,
                    error: Some(port_taken_text(m.port)),
                    ..m
                },
                StartStepView::Finish {
                    emit: true,
                    watch: false,
                    result: Err(port_taken_text(m.port)),
                },
            )
        } else {
            (m, StartStepView::LocateLogDir)
        },
        (StartStepView::LocateLogDir, StartEventView::LogDirLocated(r)) => match r {
            Ok(dir) => (m, StartStepView::CreateLogDir { dir }),
            Err(e) => (m, failed_start("无法获取日志目录: "@ + e)),
        },
        (StartStepView::CreateLogDir { dir }, StartEventView::LogDirCreated(r)) => match r {
            Ok(_) => (
                m,
                StartStepView::CreateLogFile { place: place_in(dir, LOG_FILE_NAME@) },
            ),
            Err(e) => (m, failed_start("无法创建日志目录: "@ + e)),
        },
        (StartStepView::CreateLogFile { .. }, StartEventView::LogFileCreated(r)) => match r {
            Ok(log_path) => (m, StartStepView::DuplicateLogHandle { log_path }),
            Err(e) => (m, failed_start("无法创建日志文件: "@ + e)),
        },
        (
            StartStepView::DuplicateLogHandle { log_path },
            StartEventView::LogHandleDuplicated(r),
        ) => match r {
            Ok(_) => (
                m,
                StartStepView::SpawnServer { log_path, command_line: launch_text(m.port) },
            ),
            Err(e) => (m, failed_start(e)),
        },
        (
            StartStepView::SpawnServer { log_path, command_line },
            StartEventView::ServerSpawned(r),
        ) => match r {
            Ok(pid) => (
                ServerView {
                    child: Some(pid),
                    state: ServerState::Starting,
                    started_at: Some(now),
                    log_path: Some(log_path),
                    stopping: false,
                    ..m
                },
                StartStepView::Finish { emit: true, watch: true, result: Ok(()) },
            ),
            Err(e) => (m, failed_start("无法启动 dsh 服务: "@ + e)),
        },
        _ => (m, step),
    }
}

/// What a restart has to do: end the process `kill`, then go on with `step`.
#[derive(Debug)]
pub struct RestartPlan {
    pub kill: Option<u32>,
    pub step: StartStep,
}

// ---------------------------------------------------------------------------
// The manager
// ---------------------------------------------------------------------------

/// Keeps track of the local server.
pub struct ServerManager {
    port: u16,
    child: Option<u32>,
    state: ServerState,
    error: Option<String>,
    started_at: Option<u64>,
    log_path: Option<PathBuf>,
    stopping: bool,
}

impl View for ServerManager {
    type V = ServerView;

    closed spec fn view(&self) -> ServerView {
        ServerView {
            port: self.port,
            child: self.child,
            state: self.state,
            error: text_of(self.error),
            started_at: self.started_at,
            log_path: self.log_path,
            stopping: self.stopping,
        }
    }
}

impl ServerManager {
    /// A manager of a server on `port` that has not been started.
    pub fn new(port: u16) -> (manager: ServerManager)
        ensures
            manager@ == new_server(port),
            manager@.wf(),
    {
        ServerManager {
            port,
            child: None,
            state: ServerState::Idle,
            error: None,
            started_at: None,
            log_path: None,
            stopping: false,
        }
    }

    /// The address of the server's web page.
    pub fn url(&self) -> (url: String)
        ensures
            url@ == url_text(self@.port),
    {
        server_url(self.port)
    }

    /// The port of the server.
    pub fn port(&self) -> (port: u16)
        ensures
            port == self@.port,
    {
        self.port
    }

    /// Whether the watch over the launched server is to end.
    pub fn stopping(&self) -> (stopping: bool)
        ensures
            stopping == self@.stopping,
            stopping == watch_is_over(self@),
    {
        self.stopping
    }

    /// The log of the last launched server.
    pub fn log_path(&self) -> (log_path: Option<&PathBuf>)
        ensures
            log_path is Some <==> self@.log_path is Some,
            log_path matches Some(path) ==> self@.log_path == Some(*path),
            log_of(self@) == (match log_path {
                Some(path) => Some(*path),
                None => None,
            }),
    {
        self.log_path.as_ref()
    }

    /// Whether a report needs to know if the port serves the harness: it does
    /// where no server was launched from here.
    pub fn needs_harness_probe(&self) -> (needed: bool)
        ensures
            needed == (self@.child is None),
            needed == probe_needed(self@),
    {
        self.child.is_none()
    }

    /// The report on the server at the time `now`, where `harness_found` says
    /// whether the port serves the harness.
    pub fn status(&self, harness_found: bool, now: u64) -> (payload: StatusPayload)
        ensures
            payload@ == status_of(self@, harness_found, now),
    {
        let adopted = self.child.is_none() && harness_found;
        let state = if adopted {
            ServerState::Running
        } else {
            self.state
        };
        let elapsed_secs = match self.started_at {
            Some(since) => Some(
                if now >= since {
                    (now - since) / NANOS_PER_SEC
                } else {
                    0
                },
            ),
            None => None,
        };
        let error = match &self.error {
            Some(message) => Some(message.clone()),
            None => None,
        };
        StatusPayload { state, port: self.port, url: self.url(), error, elapsed_secs }
    }

    /// Begins a start, and says what to do first.
    pub fn start(&mut self) -> (step: StartStep)
        ensures
            (final(self)@, step@) == start_begun(old(self)@),
            old(self)@.wf() ==> final(self)@.wf(),
    {
        match self.state {
            ServerState::Starting | ServerState::Running => StartStep::Finish {
                emit: false,
                watch: false,
                result: Ok(()),
            },
            ServerState::Idle | ServerState::Error => {
                self.error = None;
                StartStep::ProbeHarness
            },
        }
    }

    /// Goes on with a start: the work of `step` came out as `event`, at the time
    /// `now`. Says what to do next.
    pub fn advance_start(&mut self, step: StartStep, event: StartEvent, now: u64) -> (next:
        StartStep)
        ensures
            (final(self)@, next@) == start_advanced(old(self)@, step@, event@, now),
            old(self)@.wf() && old(self)@.start_pending() ==> final(self)@.wf(),
    {
        match (step, event) {
            (StartStep::ProbeHarness, StartEvent::HarnessProbed(found)) => {
                if found {
                    self.state = ServerState::Running;
                    self.started_at = Some(now);
                    StartStep::Finish { emit: true, watch: false, result: Ok(()) }
                } else {
                    StartStep::ProbePort
                }
            },
            (StartStep::ProbePort, StartEvent::PortProbed(taken)) => {
                if taken {
                    let message = port_taken_message(self.port);
                    self.state = ServerState::Error;
                    self.error = Some(message.clone());
                    StartStep::Finish { emit: true, watch: false, result: Err(message) }
                } else {
                    StartStep::LocateLogDir
                }
            },
            (StartStep::LocateLogDir, StartEvent::LogDirLocated(outcome)) => match outcome {
                Ok(dir) => StartStep::CreateLogDir { dir },
                Err(cause) => give_up(explain("无法获取日志目录: ", &cause)),
            },
            (StartStep::CreateLogDir { dir }, StartEvent::LogDirCreated(outcome)) => match outcome {
                Ok(_) => StartStep::CreateLogFile { place: in_directory(dir, LOG_FILE_NAME) },
                Err(cause) => give_up(explain("无法创建日志目录: ", &cause)),
            },
            (StartStep::CreateLogFile { .. }, StartEvent::LogFileCreated(outcome)) => match outcome {
                Ok(log_path) => StartStep::DuplicateLogHandle { log_path },
                Err(cause) => give_up(explain("无法创建日志文件: ", &cause)),
            },
            (
                StartStep::DuplicateLogHandle { log_path },
                StartEvent::LogHandleDuplicated(outcome),
            ) => match outcome {
                Ok(_) => StartStep::SpawnServer {
                    log_path,
                    command_line: launch_command(self.port),
                },
                Err(cause) => give_up(cause),
            },
            (StartStep::SpawnServer { log_path, .. }, StartEvent::ServerSpawned(outcome)) => {
                match outcome {
                    Ok(pid) => {
                        self.child = Some(pid);
                        self.state = ServerState::Starting;
                        self.started_at = Some(now);
                        self.log_path = Some(log_path);
                        self.stopping = false;
                        StartStep::Finish { emit: true, watch: true, result: Ok(()) }
                    },
                    Err(cause) => give_up(explain("无法启动 dsh 服务: ", &cause)),
                }
            },
            (step, _) => step,
        }
    }

    /// Stops the server, and says which process to end: the one that was launched
    /// from here, if any.
    pub fn stop(&mut self) -> (kill: Option<u32>)
        ensures
            kill == old(self)@.child,
            kill == to_kill(old(self)@),
            final(self)@ == stopped(old(self)@),
            old(self)@.wf() ==> final(self)@.wf(),
    {
        let kill = self.child;
        if kill.is_some() {
            self.child = None;
            self.stopping = true;
        }
        self.state = ServerState::Idle;
        self.started_at = None;
        kill
    }

    /// Stops the server and begins to start it again.
    pub fn restart(&mut self) -> (plan: RestartPlan)
        ensures
            plan.kill == old(self)@.child,
            plan.kill == to_kill(old(self)@),
            (final(self)@, plan.step@) == start_begun(stopped(old(self)@)),
            old(self)@.wf() ==> final(self)@.wf(),
    {
        let kill = self.stop();
        let step = self.start();
        RestartPlan { kill, step }
    }

    /// Takes note of what a round of the watch came to.
    pub fn apply_verdict(&mut self, verdict: WatchVerdict)
        ensures
            final(self)@ == watched(old(self)@, verdict),
            old(self)@.wf() ==> final(self)@.wf(),
    {
        match verdict {
            WatchVerdict::Ready => {
                self.state = ServerState::Running;
                self.error = None;
            },
            WatchVerdict::TimedOut => {
                self.state = ServerState::Error;
                self.error = Some(
                    "启动超时（300 秒）。请确认 Node.js 可用，并查看日志。".to_string(),
                );
            },
            WatchVerdict::Lost => {
                self.state = ServerState::Error;
                self.error = Some("服务已停止或崩溃，请查看日志或重启服务。".to_string());
            },
            WatchVerdict::KeepWatching | WatchVerdict::Stopped => {},
        }
    }

    /// The last `max_lines` lines of the log, where `content` is what could be
    /// read of it. Empty where there is no log or it could not be read.
    pub fn tail_log(&self, content: Option<&str>, max_lines: usize) -> (text: String)
        ensures
            text@ == (match content {
                Some(content) if self@.log_path is Some => tail_text(
                    content@,
                    max_lines as nat,
                ),
                _ => Seq::<char>::empty(),
            }),
            text@ == log_tail(
                self@,
                match content {
                    Some(content) => Some(content@),
                    None => None,
                },
                max_lines as nat,
            ),
    {
        match content {
            Some(content) if self.log_path.is_some() => tail(content, max_lines),
            _ => String::new(),
        }
    }

    /// The end of the manager: says which process to end, the one that was
    /// launched from here and not stopped since, if any.
    pub fn into_child(self) -> (kill: Option<u32>)
        ensures
            kill == self@.child,
            kill == to_kill(self@),
    {
        self.child
    }
}

/// The end of a start that failed without a status report.
fn give_up(message: String) -> (step: StartStep)
    ensures
        step@ == failed_start(message@),
{
    StartStep::Finish { emit: false, watch: false, result: Err(message) }
}

} // verus!
