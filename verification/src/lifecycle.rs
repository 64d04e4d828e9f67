//! What holds of a server manager over whole sequences of operations.

use crate::place::{place_in, PlaceView};
use crate::server::{
    boot_report, kill_texts, launch_text, log_of, log_tail, lost_text, new_server, port_taken_text,
    probe_needed, start_advanced, start_begun, status_of, stopped, timeout_text, to_kill, url_text,
    watch_is_over, watched, ServerState, ServerView, StartEventView, StartStepView, HOST,
    LOG_FILE_NAME,
};
use crate::text::{
    decimal, join_lines, law_decimal_denotes, law_decimal_injective,
    law_tail_is_made_of_the_last_lines, lines, number_of,
};
use crate::watcher::WatchVerdict;
use std::path::PathBuf;
use vstd::prelude::*;

verus! {

// ---------------------------------------------------------------------------
// One start
// ---------------------------------------------------------------------------

/// The outcomes that a start is told, each with the time of its arrival.
pub type StartTrace = Seq<(StartEventView, u64)>;

/// The manager and the step that a start stands at after `trace`.
pub open spec fn start_run(m: ServerView, trace: StartTrace) -> (ServerView, StartStepView)
    decreases trace.len(),
{
    if trace.len() == 0 {
        start_begun(m)
    } else {
        let (before, step) = start_run(m, trace.drop_last());
        start_advanced(before, step, trace.last().0, trace.last().1)
    }
}

/// How many steps a start is from its end, at most.
pub open spec fn steps_left(step: StartStepView) -> nat {
    match step {
        StartStepView::ProbeHarness => 7,
        StartStepView::ProbePort => 6,
        StartStepView::LocateLogDir => 5,
        StartStepView::CreateLogDir { .. } => 4,
        StartStepView::CreateLogFile { .. } => 3,
        StartStepView::DuplicateLogHandle { .. } => 2,
        StartStepView::SpawnServer { .. } => 1,
        StartStepView::Finish { .. } => 0,
    }
}

/// `event` is an outcome of the work that `step` asks for.
pub open spec fn answers(step: StartStepView, event: StartEventView) -> bool {
    match step {
        StartStepView::ProbeHarness => event is HarnessProbed,
        StartStepView::ProbePort => event is PortProbed,
        StartStepView::LocateLogDir => event is LogDirLocated,
        StartStepView::CreateLogDir { .. } => event is LogDirCreated,
        StartStepView::CreateLogFile { .. } => event is LogFileCreated,
        StartStepView::DuplicateLogHandle { .. } => event is LogHandleDuplicated,
        StartStepView::SpawnServer { .. } => event is ServerSpawned,
        StartStepView::Finish { .. } => false,
    }
}

/// Outcome number `i` is `event`, and answers the step that the start stood at.
pub open spec fn took(m: ServerView, trace: StartTrace, i: int, event: StartEventView) -> bool {
    &&& 0 <= i < trace.len()
    &&& trace[i].0 == event
    &&& answers(start_run(m, trace.take(i)).1, event)
}

/// The start was told `event` in answer to the step that it stood at.
pub open spec fn told(m: ServerView, trace: StartTrace, event: StartEventView) -> bool {
    exists|i: int| took(m, trace, i, event)
}

/// The start was told `event` at the time `now`, in answer to the step that it
/// stood at.
pub open spec fn told_at(m: ServerView, trace: StartTrace, event: StartEventView, now: u64) -> bool {
    exists|i: int| took(m, trace, i, event) && trace[i].1 == now
}

/// Each of the outcomes answers the step that the start stood at.
pub open spec fn in_turn(m: ServerView, trace: StartTrace) -> bool
    decreases trace.len(),
{
    trace.len() > 0 ==> {
        &&& in_turn(m, trace.drop_last())
        &&& answers(start_run(m, trace.drop_last()).1, trace.last().0)
    }
}

/// Each outcome brings a start nearer to its end, so that it is over after seven
/// outcomes at the latest.
pub proof fn law_start_comes_to_an_end(m: ServerView, trace: StartTrace)
    requires
        in_turn(m, trace),
    ensures
        trace.len() + steps_left(start_run(m, trace).1) <= 7,
        trace.len() == 7 ==> start_run(m, trace).1 is Finish,
    decreases trace.len(),
{
    if trace.len() > 0 {
        law_start_comes_to_an_end(m, trace.drop_last());
    }
}

/// An event that does not answer the step changes nothing.
pub proof fn law_start_ignores_other_events(
    m: ServerView,
    step: StartStepView,
    event: StartEventView,
    now: u64,
)
    requires
        !answers(step, event),
    ensures
        start_advanced(m, step, event, now) == (m, step),
{
}

/// Of the manager, only its port decides how a start goes on. What an outcome does
/// to a field of the manager, it does whatever the manager is: it sets the field to
/// the same value or leaves it as it is. The port is never changed.
pub proof fn law_start_goes_on_alike(
    a: ServerView,
    b: ServerView,
    step: StartStepView,
    event: StartEventView,
    now: u64,
)
    requires
        a.port == b.port,
    ensures
        ({
            let (x, next) = start_advanced(a, step, event, now);
            let (y, other) = start_advanced(b, step, event, now);
            &&& next == other
            &&& x.port == a.port && y.port == b.port
            &&& x.child == y.child || (x.child == a.child && y.child == b.child)
            &&& x.state == y.state || (x.state == a.state && y.state == b.state)
            &&& x.error == y.error || (x.error == a.error && y.error == b.error)
            &&& x.started_at == y.started_at || (x.started_at == a.started_at && y.started_at
                == b.started_at)
            &&& x.log_path == y.log_path || (x.log_path == a.log_path && y.log_path == b.log_path)
            &&& x.stopping == y.stopping || (x.stopping == a.stopping && y.stopping == b.stopping)
        }),
{
}

/// A start is idempotent: on a server that is up or on its way up it succeeds at
/// once, changes nothing, reports nothing and launches nothing, whatever it is told.
pub proof fn law_start_is_idempotent(m: ServerView, trace: StartTrace)
    requires
        m.state == ServerState::Starting || m.state == ServerState::Running,
    ensures
        start_run(m, trace) == (
            m,
            StartStepView::Finish { emit: false, watch: false, result: Ok(()) },
        ),
    decreases trace.len(),
{
    if trace.len() > 0 {
        law_start_is_idempotent(m, trace.drop_last());
    }
}

/// A harness that already serves the port is adopted: the start succeeds, the
/// server counts as running, and no process is launched.
pub proof fn law_running_harness_is_adopted(m: ServerView, now: u64)
    requires
        m.state == ServerState::Idle || m.state == ServerState::Error,
    ensures
        start_run(m, seq![(StartEventView::HarnessProbed(true), now)]) == (
            ServerView {
                state: ServerState::Running,
                error: None,
                started_at: Some(now),
                ..m
            },
            StartStepView::Finish { emit: true, watch: false, result: Ok(()) },
        ),
{
    let trace = seq![(StartEventView::HarnessProbed(true), now)];
    assert(trace.drop_last() =~= Seq::<(StartEventView, u64)>::empty());
    assert(start_run(m, trace.drop_last()) == start_begun(m));
}

proof fn lemma_told_grows(m: ServerView, trace: StartTrace, event: StartEventView)
    requires
        trace.len() > 0,
    ensures
        told(m, trace.drop_last(), event) ==> told(m, trace, event),
        forall|now: u64| #[trigger]
            told_at(m, trace.drop_last(), event, now) ==> told_at(m, trace, event, now),
        answers(start_run(m, trace.drop_last()).1, trace.last().0) ==> {
            &&& told(m, trace, trace.last().0)
            &&& told_at(m, trace, trace.last().0, trace.last().1)
        },
{
    let prior = trace.drop_last();
    assert forall|i: int| took(m, prior, i, event) implies #[trigger] took(m, trace, i, event) by {
        assert(prior.take(i) =~= trace.take(i));
    }
    if told(m, prior, event) {
        let i = choose|i: int| took(m, prior, i, event);
        assert(took(m, trace, i, event));
    }
    assert forall|now: u64| #[trigger] told_at(m, prior, event, now) implies told_at(
        m,
        trace,
        event,
        now,
    ) by {
        let i = choose|i: int| took(m, prior, i, event) && prior[i].1 == now;
        assert(took(m, trace, i, event) && trace[i].1 == now);
    }
    if answers(start_run(m, prior).1, trace.last().0) {
        let last = trace.len() - 1;
        assert(trace.take(last) =~= prior);
        assert(took(m, trace, last, trace.last().0) && trace[last].1 == trace.last().1);
    }
}

/// While a start is under way the manager stays as the start found it, but for
/// the error, which is cleared; the log goes into the log directory that was found,
/// and the server is launched by its own command line. Once the start is over, it
/// has come to one of four ends: a harness was adopted; a process was launched, and
/// is to be watched; the port was taken; or some work failed, and nothing but the
/// error has changed.
pub proof fn law_start_outcomes(m: ServerView, trace: StartTrace)
    requires
        m.startable(),
    ensures
        ({
            let (end, step) = start_run(m, trace);
            let cleared = ServerView { error: None, ..m };
            match step {
                StartStepView::Finish { emit, watch, result } => {
                    ||| {
                        &&& emit && !watch && result is Ok
                        &&& end == (ServerView {
                            state: ServerState::Running,
                            started_at: end.started_at,
                            ..cleared
                        })
                        &&& end.started_at is Some
                        &&& told_at(
                            m,
                            trace,
                            StartEventView::HarnessProbed(true),
                            end.started_at->0,
                        )
                    }
                    ||| {
                        &&& emit && watch && result is Ok
                        &&& told(m, trace, StartEventView::HarnessProbed(false))
                        &&& told(m, trace, StartEventView::PortProbed(false))
                        &&& end.child is Some
                        &&& told(m, trace, StartEventView::ServerSpawned(Ok(end.child->0)))
                        &&& end.started_at is Some
                        &&& told_at(
                            m,
                            trace,
                            StartEventView::ServerSpawned(Ok(end.child->0)),
                            end.started_at->0,
                        )
                        &&& end.log_path is Some
                        &&& told(m, trace, StartEventView::LogFileCreated(Ok(end.log_path->0)))
                        &&& end == (ServerView {
                            child: end.child,
                            state: ServerState::Starting,
                            started_at: end.started_at,
                            log_path: end.log_path,
                            stopping: false,
                            ..cleared
                        })
                    }
                    ||| {
                        &&& emit && !watch && result == Err::<(), _>(port_taken_text(m.port))
                        &&& told(m, trace, StartEventView::HarnessProbed(false))
                        &&& told(m, trace, StartEventView::PortProbed(true))
                        &&& end == (ServerView {
                            state: ServerState::Error,
                            error: Some(port_taken_text(m.port)),
                            ..cleared
                        })
                    }
                    ||| {
                        &&& !emit && !watch && result is Err
                        &&& told(m, trace, StartEventView::HarnessProbed(false))
                        &&& told(m, trace, StartEventView::PortProbed(false))
                        &&& end == cleared
                    }
                },
                _ => {
                    &&& end == cleared
                    &&& !(step is ProbeHarness) ==> told(
                        m,
                        trace,
                        StartEventView::HarnessProbed(false),
                    )
                    &&& !(step is ProbeHarness) && !(step is ProbePort) ==> told(
                        m,
                        trace,
                        StartEventView::PortProbed(false),
                    )
                    &&& step matches StartStepView::CreateLogDir { dir } ==> told(
                        m,
                        trace,
                        StartEventView::LogDirLocated(Ok(dir)),
                    )
                    &&& step matches StartStepView::CreateLogFile { place } ==> {
                        &&& place == place_in(place.base, LOG_FILE_NAME@)
                        &&& told(m, trace, StartEventView::LogDirLocated(Ok(place.base)))
                    }
                    &&& step matches StartStepView::DuplicateLogHandle { log_path } ==> told(
                        m,
                        trace,
                        StartEventView::LogFileCreated(Ok(log_path)),
                    )
                    &&& step matches StartStepView::SpawnServer { log_path, command_line } ==> {
                        &&& told(m, trace, StartEventView::LogFileCreated(Ok(log_path)))
                        &&& command_line == launch_text(m.port)
                    }
                },
            }
        }),
    decreases trace.len(),
{
    if trace.len() > 0 {
        let prior = trace.drop_last();
        law_start_outcomes(m, prior);
        assert forall|event: StartEventView| told(m, prior, event) implies #[trigger] told(
            m,
            trace,
            event,
        ) by {
            lemma_told_grows(m, trace, event);
        }
        assert forall|event: StartEventView, now: u64| told_at(
            m,
            prior,
            event,
            now,
        ) implies #[trigger] told_at(m, trace, event, now) by {
            lemma_told_grows(m, trace, event);
        }
        lemma_told_grows(m, trace, trace.last().0);
    }
}

/// The outcomes of a start in which all goes well: nothing is on the port, the log
/// goes to `log_path` in `dir`, and the process `pid` is launched. Outcome number `i`
/// arrives at the time `times[i]`.
pub open spec fn launch_trace(
    times: Seq<u64>,
    dir: PathBuf,
    log_path: PathBuf,
    pid: u32,
) -> StartTrace {
    seq![
        (StartEventView::HarnessProbed(false), times[0]),
        (StartEventView::PortProbed(false), times[1]),
        (StartEventView::LogDirLocated(Ok(dir)), times[2]),
        (StartEventView::LogDirCreated(Ok(())), times[3]),
        (StartEventView::LogFileCreated(Ok(log_path)), times[4]),
        (StartEventView::LogHandleDuplicated(Ok(())), times[5]),
        (StartEventView::ServerSpawned(Ok(pid)), times[6]),
    ]
}

proof fn lemma_start_run_push(m: ServerView, trace: StartTrace, event: StartEventView, now: u64)
    ensures
        start_run(m, trace.push((event, now))) == start_advanced(
            start_run(m, trace).0,
            start_run(m, trace).1,
            event,
            now,
        ),
{
    assert(trace.push((event, now)).drop_last() =~= trace);
}

proof fn lemma_start_run_take(m: ServerView, trace: StartTrace, i: int)
    requires
        0 <= i < trace.len(),
    ensures
        start_run(m, trace.take(i + 1)) == start_advanced(
            start_run(m, trace.take(i)).0,
            start_run(m, trace.take(i)).1,
            trace[i].0,
            trace[i].1,
        ),
{
    assert(trace.take(i + 1).drop_last() =~= trace.take(i));
}

/// A server that is neither up nor on its way up is started, whether it was never
/// started, was stopped or has failed. The port is asked for a harness, then for
/// anything at all; the log directory is found and made, the log file is made in it,
/// and the server is launched on its port with its output in that file. Up to then
/// nothing but the error has changed. Then the start succeeds and is reported, the
/// server is on its way up since the launch, and the launched process is held and is
/// to be watched.
pub proof fn law_free_port_is_launched_on(
    m: ServerView,
    times: Seq<u64>,
    dir: PathBuf,
    log_path: PathBuf,
    pid: u32,
)
    requires
        m.state == ServerState::Idle || m.state == ServerState::Error,
        times.len() == 7,
    ensures
        ({
            let trace = launch_trace(times, dir, log_path, pid);
            let cleared = ServerView { error: None, ..m };
            &&& start_run(m, trace.take(0)) == (cleared, StartStepView::ProbeHarness)
            &&& start_run(m, trace.take(1)) == (cleared, StartStepView::ProbePort)
            &&& start_run(m, trace.take(2)) == (cleared, StartStepView::LocateLogDir)
            &&& start_run(m, trace.take(3)) == (cleared, StartStepView::CreateLogDir { dir })
            &&& start_run(m, trace.take(4)) == (
                cleared,
                StartStepView::CreateLogFile {
                    place: PlaceView { base: dir, parts: seq!["dsh-server.log"@] },
                },
            )
            &&& start_run(m, trace.take(5)) == (
                cleared,
                StartStepView::DuplicateLogHandle { log_path },
            )
            &&& start_run(m, trace.take(6)) == (
                cleared,
                StartStepView::SpawnServer {
                    log_path,
                    command_line: "npx --yes @deepseek-ai/dsh web --host 127.0.0.1 --port "@
                        + decimal(m.port as nat) + " --no-open"@,
                },
            )
            &&& start_run(m, trace) == (
                ServerView {
                    port: m.port,
                    child: Some(pid),
                    state: ServerState::Starting,
                    error: None,
                    started_at: Some(times[6]),
                    log_path: Some(log_path),
                    stopping: false,
                },
                StartStepView::Finish { emit: true, watch: true, result: Ok(()) },
            )
        }),
{
    let trace = launch_trace(times, dir, log_path, pid);
    assert(trace.take(0) =~= Seq::<(StartEventView, u64)>::empty());
    lemma_start_run_take(m, trace, 0);
    lemma_start_run_take(m, trace, 1);
    lemma_start_run_take(m, trace, 2);
    lemma_start_run_take(m, trace, 3);
    lemma_start_run_take(m, trace, 4);
    lemma_start_run_take(m, trace, 5);
    lemma_start_run_take(m, trace, 6);
    assert(trace.take(7) =~= trace);
    assert(place_in(dir, LOG_FILE_NAME@) =~= PlaceView {
        base: dir,
        parts: seq!["dsh-server.log"@],
    });
    law_launch_line_names_the_port(m.port);
}

/// A port that something else than the harness holds ends the start: the server has
/// failed, and both the report and the caller are told which port is taken.
pub proof fn law_taken_port_is_refused(m: ServerView, first: u64, second: u64)
    requires
        m.state == ServerState::Idle || m.state == ServerState::Error,
    ensures
        ({
            let trace = Seq::<(StartEventView, u64)>::empty().push(
                (StartEventView::HarnessProbed(false), first),
            ).push((StartEventView::PortProbed(true), second));
            let message = "端口 "@ + decimal(m.port as nat)
                + " 已被其他程序占用，请关闭占用程序后重试"@;
            start_run(m, trace) == (
                ServerView { state: ServerState::Error, error: Some(message), ..m },
                StartStepView::Finish { emit: true, watch: false, result: Err(message) },
            )
        }),
{
    let none = Seq::<(StartEventView, u64)>::empty();
    let probed = none.push((StartEventView::HarnessProbed(false), first));
    lemma_start_run_push(m, none, StartEventView::HarnessProbed(false), first);
    lemma_start_run_push(m, probed, StartEventView::PortProbed(true), second);
}

/// Work that fails on the way to the launch ends the start with what failed and why.
/// Nothing but the error has changed, nothing is reported and nothing is watched.
pub proof fn law_failed_work_ends_the_start(
    m: ServerView,
    times: Seq<u64>,
    dir: PathBuf,
    log_path: PathBuf,
    pid: u32,
    cause: Seq<char>,
    now: u64,
)
    requires
        m.state == ServerState::Idle || m.state == ServerState::Error,
        times.len() == 7,
    ensures
        ({
            let trace = launch_trace(times, dir, log_path, pid);
            let cleared = ServerView { error: None, ..m };
            &&& start_run(
                m,
                trace.take(2).push((StartEventView::LogDirLocated(Err(cause)), now)),
            ) == (
                cleared,
                StartStepView::Finish {
                    emit: false,
                    watch: false,
                    result: Err("无法获取日志目录: "@ + cause),
                },
            )
            &&& start_run(
                m,
                trace.take(3).push((StartEventView::LogDirCreated(Err(cause)), now)),
            ) == (
                cleared,
                StartStepView::Finish {
                    emit: false,
                    watch: false,
                    result: Err("无法创建日志目录: "@ + cause),
                },
            )
            &&& start_run(
                m,
                trace.take(4).push((StartEventView::LogFileCreated(Err(cause)), now)),
            ) == (
                cleared,
                StartStepView::Finish {
                    emit: false,
                    watch: false,
                    result: Err("无法创建日志文件: "@ + cause),
                },
            )
            &&& start_run(
                m,
                trace.take(5).push((StartEventView::LogHandleDuplicated(Err(cause)), now)),
            ) == (
                cleared,
                StartStepView::Finish { emit: false, watch: false, result: Err(cause) },
            )
            &&& start_run(
                m,
                trace.take(6).push((StartEventView::ServerSpawned(Err(cause)), now)),
            ) == (
                cleared,
                StartStepView::Finish {
                    emit: false,
                    watch: false,
                    result: Err("无法启动 dsh 服务: "@ + cause),
                },
            )
        }),
{
    let trace = launch_trace(times, dir, log_path, pid);
    law_free_port_is_launched_on(m, times, dir, log_path, pid);
    lemma_start_run_push(m, trace.take(2), StartEventView::LogDirLocated(Err(cause)), now);
    lemma_start_run_push(m, trace.take(3), StartEventView::LogDirCreated(Err(cause)), now);
    lemma_start_run_push(m, trace.take(4), StartEventView::LogFileCreated(Err(cause)), now);
    lemma_start_run_push(m, trace.take(5), StartEventView::LogHandleDuplicated(Err(cause)), now);
    lemma_start_run_push(m, trace.take(6), StartEventView::ServerSpawned(Err(cause)), now);
}

/// The start was told of something that `message` reports: a taken port, or work
/// that failed.
pub open spec fn has_cause(m: ServerView, trace: StartTrace, message: Seq<char>) -> bool {
    ||| told(m, trace, StartEventView::PortProbed(true)) && message == "端口 "@ + decimal(
        m.port as nat,
    ) + " 已被其他程序占用，请关闭占用程序后重试"@
    ||| exists|e: Seq<char>| #[trigger]
        told(m, trace, StartEventView::LogDirLocated(Err(e))) && message
            == "无法获取日志目录: "@ + e
    ||| exists|e: Seq<char>| #[trigger]
        told(m, trace, StartEventView::LogDirCreated(Err(e))) && message
            == "无法创建日志目录: "@ + e
    ||| exists|e: Seq<char>| #[trigger]
        told(m, trace, StartEventView::LogFileCreated(Err(e))) && message
            == "无法创建日志文件: "@ + e
    ||| told(m, trace, StartEventView::LogHandleDuplicated(Err(message)))
    ||| exists|e: Seq<char>| #[trigger]
        told(m, trace, StartEventView::ServerSpawned(Err(e))) && message
            == "无法启动 dsh 服务: "@ + e
}

/// A start fails only for a cause that it was told of, and with the message for
/// that cause.
pub proof fn law_start_fails_for_a_cause(m: ServerView, trace: StartTrace, message: Seq<char>)
    requires
        start_run(m, trace).1 is Finish,
        start_run(m, trace).1->result == Err::<(), Seq<char>>(message),
    ensures
        has_cause(m, trace, message),
    decreases trace.len(),
{
    if trace.len() > 0 {
        let prior = trace.drop_last();
        assert forall|event: StartEventView| told(m, prior, event) implies #[trigger] told(
            m,
            trace,
            event,
        ) by {
            lemma_told_grows(m, trace, event);
        }
        lemma_told_grows(m, trace, trace.last().0);
        if start_run(m, prior).1 is Finish {
            law_start_fails_for_a_cause(m, prior, message);
            lemma_cause_grows(m, trace, message);
        } else {
            lemma_start_run_keeps_port(m, prior);
        }
    }
}

proof fn lemma_cause_grows(m: ServerView, trace: StartTrace, message: Seq<char>)
    requires
        trace.len() > 0,
        has_cause(m, trace.drop_last(), message),
        forall|event: StartEventView|
            told(m, trace.drop_last(), event) ==> #[trigger] told(m, trace, event),
    ensures
        has_cause(m, trace, message),
{
    let prior = trace.drop_last();
    if exists|e: Seq<char>| #[trigger]
        told(m, prior, StartEventView::LogDirLocated(Err(e))) && message
            == "无法获取日志目录: "@ + e {
        let e = choose|e: Seq<char>| #[trigger]
            told(m, prior, StartEventView::LogDirLocated(Err(e))) && message
                == "无法获取日志目录: "@ + e;
        assert(told(m, trace, StartEventView::LogDirLocated(Err(e))));
    } else if exists|e: Seq<char>| #[trigger]
        told(m, prior, StartEventView::LogDirCreated(Err(e))) && message
            == "无法创建日志目录: "@ + e {
        let e = choose|e: Seq<char>| #[trigger]
            told(m, prior, StartEventView::LogDirCreated(Err(e))) && message
                == "无法创建日志目录: "@ + e;
        assert(told(m, trace, StartEventView::LogDirCreated(Err(e))));
    } else if exists|e: Seq<char>| #[trigger]
        told(m, prior, StartEventView::LogFileCreated(Err(e))) && message
            == "无法创建日志文件: "@ + e {
        let e = choose|e: Seq<char>| #[trigger]
            told(m, prior, StartEventView::LogFileCreated(Err(e))) && message
                == "无法创建日志文件: "@ + e;
        assert(told(m, trace, StartEventView::LogFileCreated(Err(e))));
    } else if exists|e: Seq<char>| #[trigger]
        told(m, prior, StartEventView::ServerSpawned(Err(e))) && message
            == "无法启动 dsh 服务: "@ + e {
        let e = choose|e: Seq<char>| #[trigger]
            told(m, prior, StartEventView::ServerSpawned(Err(e))) && message
                == "无法启动 dsh 服务: "@ + e;
        assert(told(m, trace, StartEventView::ServerSpawned(Err(e))));
    } else if told(m, prior, StartEventView::PortProbed(true)) && message == "端口 "@ + decimal(
        m.port as nat,
    ) + " 已被其他程序占用，请关闭占用程序后重试"@ {
        assert(told(m, trace, StartEventView::PortProbed(true)));
    } else {
        assert(told(m, trace, StartEventView::LogHandleDuplicated(Err(message))));
    }
}

proof fn lemma_start_run_keeps_port(m: ServerView, trace: StartTrace)
    ensures
        start_run(m, trace).0.port == m.port,
    decreases trace.len(),
{
    if trace.len() > 0 {
        lemma_start_run_keeps_port(m, trace.drop_last());
    }
}

// ---------------------------------------------------------------------------
// Stop, restart and recovery
// ---------------------------------------------------------------------------

/// A stop ends the process that was launched from here and no other: a harness
/// that was merely adopted is left alone.
pub proof fn law_stop_leaves_adopted_server(m: ServerView)
    requires
        m.child is None,
    ensures
        stopped(m).stopping == m.stopping,
        stopped(m).child is None,
        stopped(m).state == ServerState::Idle,
        stopped(stopped(m)) == stopped(m),
{
}

/// A restart never ends without trying: from every state the stop is followed by
/// a start that begins with the probe for a harness.
pub proof fn law_restart_always_starts(m: ServerView)
    ensures
        start_begun(stopped(m)).1 is ProbeHarness,
        start_begun(stopped(m)).0 == (ServerView { error: None, ..stopped(m) }),
{
}

/// A server that timed out or went away is reported with a message, and can be
/// started again. Where it was launched from here, it is reported as failed
/// whatever else the port serves.
pub proof fn law_failure_is_reported_and_recoverable(m: ServerView, verdict: WatchVerdict, now: u64)
    requires
        verdict is TimedOut || verdict is Lost,
    ensures
        ({
            let failed = watched(m, verdict);
            let report = status_of(failed, false, now);
            &&& report.state == ServerState::Error
            &&& m.child is Some ==> forall|harness_found: bool|
                (#[trigger] status_of(failed, harness_found, now)).state == ServerState::Error
            &&& forall|harness_found: bool|
                (#[trigger] status_of(failed, harness_found, now)).error == report.error
            &&& report.error == Some(
                if verdict is TimedOut {
                    timeout_text()
                } else {
                    lost_text()
                },
            )
            &&& start_begun(failed) == (
                ServerView { error: None, ..failed },
                StartStepView::ProbeHarness,
            )
        }),
{
}

/// A server that answers is reported as running and without an error.
pub proof fn law_ready_server_is_running(m: ServerView, harness_found: bool, now: u64)
    ensures
        ({
            let report = status_of(watched(m, WatchVerdict::Ready), harness_found, now);
            report.state == ServerState::Running && report.error is None
        }),
{
}

/// Servers on different ports have different addresses.
pub proof fn law_url_names_the_port(a: u16, b: u16)
    requires
        url_text(a) == url_text(b),
    ensures
        a == b,
{
    let prefix = "http://"@ + HOST@ + ":"@;
    assert(url_text(a).skip(prefix.len() as int) =~= decimal(a as nat));
    assert(url_text(b).skip(prefix.len() as int) =~= decimal(b as nat));
    law_decimal_injective(a as nat, b as nat);
}

/// The address of a server is made of the local host and the digits of its port.
pub proof fn law_url_is_local(port: u16)
    ensures
        url_text(port) == "http://127.0.0.1:"@ + decimal(port as nat),
        url_text(port).len() > 17,
        number_of(url_text(port).skip(17)) == port,
{
    reveal_strlit("http://");
    reveal_strlit("127.0.0.1");
    reveal_strlit(":");
    reveal_strlit("http://127.0.0.1:");
    assert(url_text(port) =~= "http://127.0.0.1:"@ + decimal(port as nat));
    assert(url_text(port).skip(17) =~= decimal(port as nat));
    law_decimal_denotes(port as nat);
}

/// The server is launched for the local host, on the port of its manager, and
/// without opening a browser.
pub proof fn law_launch_line_names_the_port(port: u16)
    ensures
        launch_text(port) == "npx --yes @deepseek-ai/dsh web --host 127.0.0.1 --port "@ + decimal(
            port as nat,
        ) + " --no-open"@,
{
    reveal_strlit("npx --yes @deepseek-ai/dsh web --host ");
    reveal_strlit("127.0.0.1");
    reveal_strlit(" --port ");
    reveal_strlit("npx --yes @deepseek-ai/dsh web --host 127.0.0.1 --port ");
    assert("npx --yes @deepseek-ai/dsh web --host "@ + HOST@ + " --port "@
        =~= "npx --yes @deepseek-ai/dsh web --host 127.0.0.1 --port "@);
}

/// The process to end is the one that is named, with all that it launched, and it
/// is ended by force. Different processes are named differently.
pub proof fn law_kill_names_the_process(pid: u32, other: u32)
    ensures
        kill_texts(pid).len() == 4,
        kill_texts(pid)[0] == "/PID"@,
        number_of(kill_texts(pid)[1]) == pid,
        kill_texts(pid)[1] == decimal(pid as nat),
        kill_texts(pid)[2] == "/T"@,
        kill_texts(pid)[3] == "/F"@,
        kill_texts(pid) == kill_texts(other) ==> pid == other,
{
    law_decimal_denotes(pid as nat);
    law_decimal_denotes(other as nat);
}

/// A new manager has launched nothing, reports a server that is idle, without an
/// error and without a time, and is ready for a start.
pub proof fn law_new_server_is_idle(port: u16, now: u64)
    ensures
        ({
            let m = new_server(port);
            let report = status_of(m, false, now);
            &&& m.port == port
            &&& to_kill(m) is None
            &&& m.log_path is None
            &&& !m.stopping
            &&& report.state == ServerState::Idle
            &&& report.error is None
            &&& report.elapsed_secs is None
            &&& start_begun(m).1 is ProbeHarness
        }),
{
}

/// A stop ends the process that was launched, and tells its watch to end. After it
/// the server is idle, no time runs and there is no process left to end. The port,
/// the last error and the log stay.
pub proof fn law_stop_ends_what_was_launched(m: ServerView, harness_found: bool, now: u64)
    ensures
        ({
            let end = stopped(m);
            &&& to_kill(m) == m.child
            &&& to_kill(end) is None
            &&& end.stopping <==> m.stopping || m.child is Some
            &&& end.port == m.port
            &&& end.error == m.error
            &&& end.log_path == m.log_path
            &&& status_of(end, false, now).state == ServerState::Idle
            &&& status_of(end, harness_found, now).elapsed_secs is None
            &&& status_of(end, harness_found, now).error == m.error
        }),
{
}

/// What a start launched is what the next stop ends.
pub proof fn law_stop_undoes_a_launch(
    m: ServerView,
    times: Seq<u64>,
    dir: PathBuf,
    log_path: PathBuf,
    pid: u32,
)
    requires
        m.state == ServerState::Idle || m.state == ServerState::Error,
        times.len() == 7,
    ensures
        ({
            let up = start_run(m, launch_trace(times, dir, log_path, pid)).0;
            &&& to_kill(up) == Some(pid)
            &&& !up.stopping
            &&& stopped(up).stopping
            &&& stopped(up).state == ServerState::Idle
            &&& to_kill(stopped(up)) is None
        }),
{
    law_free_port_is_launched_on(m, times, dir, log_path, pid);
}

/// A launch sets the log and lets its watch begin, and a round of the watch touches
/// neither. A stop ends the watch over what was launched, and keeps the log. Before
/// the first launch there is no log and no watch to end.
pub proof fn law_log_and_watch_belong_to_a_launch(
    m: ServerView,
    times: Seq<u64>,
    dir: PathBuf,
    log_path: PathBuf,
    pid: u32,
    verdict: WatchVerdict,
    port: u16,
)
    requires
        m.state == ServerState::Idle || m.state == ServerState::Error,
        times.len() == 7,
    ensures
        ({
            let up = start_run(m, launch_trace(times, dir, log_path, pid)).0;
            &&& log_of(up) == Some(log_path)
            &&& !watch_is_over(up)
            &&& log_of(watched(up, verdict)) == Some(log_path)
            &&& !watch_is_over(watched(up, verdict))
            &&& log_of(stopped(up)) == Some(log_path)
            &&& watch_is_over(stopped(up))
            &&& log_of(stopped(m)) == log_of(m)
            &&& m.child is None ==> watch_is_over(stopped(m)) == watch_is_over(m)
            &&& log_of(new_server(port)) is None
            &&& !watch_is_over(new_server(port))
        }),
{
    law_free_port_is_launched_on(m, times, dir, log_path, pid);
}

/// A round of the watch changes what the server is doing and what went wrong, and
/// nothing else. A round that finds nothing new, or the request to stop, changes
/// nothing at all.
pub proof fn law_watch_changes_state_and_error(m: ServerView, verdict: WatchVerdict)
    ensures
        ({
            let end = watched(m, verdict);
            &&& end.port == m.port
            &&& end.child == m.child
            &&& end.started_at == m.started_at
            &&& end.log_path == m.log_path
            &&& end.stopping == m.stopping
            &&& verdict == WatchVerdict::KeepWatching || verdict == WatchVerdict::Stopped ==> end
                == m
            &&& verdict == WatchVerdict::Ready ==> end.state == ServerState::Running && end.error
                is None
            &&& verdict == WatchVerdict::TimedOut ==> end.state == ServerState::Error && end.error
                == Some("启动超时（300 秒）。请确认 Node.js 可用，并查看日志。"@)
            &&& verdict == WatchVerdict::Lost ==> end.state == ServerState::Error && end.error
                == Some("服务已停止或崩溃，请查看日志或重启服务。"@)
        }),
{
}

/// A report tells the port of the manager, its address and its last error. Where a
/// process was launched, the state is the manager's own; where none was, a harness on
/// the port counts as running, and only then does it matter whether there is one.
pub proof fn law_report_tells_the_state(m: ServerView, harness_found: bool, now: u64)
    ensures
        ({
            let report = status_of(m, harness_found, now);
            &&& report.port == m.port
            &&& report.url == url_text(m.port)
            &&& report.error == m.error
            &&& m.child is Some ==> report.state == m.state
            &&& !harness_found ==> report.state == m.state
            &&& m.child is None && harness_found ==> report.state == ServerState::Running
            &&& probe_needed(m) <==> m.child is None
            &&& !probe_needed(m) ==> status_of(m, true, now) == status_of(m, false, now)
        }),
{
}

/// The time in a report is in whole seconds since the start, rounded down. It is
/// there exactly if there was a start, and is zero where the clock went back.
pub proof fn law_report_tells_the_time(m: ServerView, harness_found: bool, now: u64)
    ensures
        ({
            let elapsed = status_of(m, harness_found, now).elapsed_secs;
            &&& elapsed is Some <==> m.started_at is Some
            &&& m.started_at is Some && now >= m.started_at->0 ==> elapsed->0 * 1_000_000_000
                <= now - m.started_at->0 < (elapsed->0 + 1) * 1_000_000_000
            &&& m.started_at is Some && now < m.started_at->0 ==> elapsed->0 == 0
        }),
{
}

/// A start that failed at boot is reported as a manager of the usual port would
/// report it.
pub proof fn law_boot_failure_is_reported_alike(message: Seq<char>, now: u64)
    ensures
        boot_report(message) == status_of(
            ServerView {
                state: ServerState::Error,
                error: Some(message),
                ..new_server(3080)
            },
            false,
            now,
        ),
{
}

/// The log is shown from its end, exactly as many lines as are asked for and there
/// are. Before the first launch, and where the log cannot be read, nothing is shown.
pub proof fn law_log_is_shown_from_its_end(m: ServerView, content: Seq<char>, max: nat)
    ensures
        log_tail(m, None, max) == Seq::<char>::empty(),
        m.log_path is None ==> log_tail(m, Some(content), max) == Seq::<char>::empty(),
        m.log_path is Some && lines(content).len() >= max ==> log_tail(m, Some(content), max)
            == join_lines(
            Seq::new(max, |i: int| lines(content)[lines(content).len() - max + i]),
        ),
        m.log_path is Some && lines(content).len() < max ==> log_tail(m, Some(content), max)
            == join_lines(Seq::new(lines(content).len(), |i: int| lines(content)[i])),
{
    law_tail_is_made_of_the_last_lines(content, max);
}

// ---------------------------------------------------------------------------
// All operations
// ---------------------------------------------------------------------------

/// One operation on a manager, with what it was told.
pub enum Operation {
    /// A start that was told `trace`.
    Start { trace: StartTrace },
    /// A stop.
    Stop,
    /// A restart whose start was told `trace`.
    Restart { trace: StartTrace },
    /// A round of some watch, which may belong to an earlier launch.
    Watch { verdict: WatchVerdict },
}

/// A manager after one operation.
pub open spec fn operated(m: ServerView, op: Operation) -> ServerView {
    match op {
        Operation::Start { trace } => start_run(m, trace).0,
        Operation::Stop => stopped(m),
        Operation::Restart { trace } => start_run(stopped(m), trace).0,
        Operation::Watch { verdict } => watched(m, verdict),
    }
}

/// A manager of `port` after the operations `ops`.
pub open spec fn history(port: u16, ops: Seq<Operation>) -> ServerView
    decreases ops.len(),
{
    if ops.len() == 0 {
        new_server(port)
    } else {
        operated(history(port, ops.drop_last()), ops.last())
    }
}

/// The operation, done to `m`, launched the process `pid`: its start stood at the
/// launch when it was told that the process runs.
pub open spec fn launched(m: ServerView, op: Operation, pid: u32) -> bool {
    let event = StartEventView::ServerSpawned(Ok(pid));
    match op {
        Operation::Start { trace } => told(m, trace, event),
        Operation::Restart { trace } => told(stopped(m), trace, event),
        Operation::Stop | Operation::Watch { .. } => false,
    }
}

/// Operation number `i` launched the process `pid`.
pub open spec fn launched_by(port: u16, ops: Seq<Operation>, i: int, pid: u32) -> bool {
    0 <= i < ops.len() && launched(history(port, ops.take(i)), ops[i], pid)
}

proof fn lemma_start_run_keeps_wf(m: ServerView, trace: StartTrace)
    requires
        m.wf(),
    ensures
        start_run(m, trace).0.wf(),
        start_run(m, trace).0.port == m.port,
        start_run(m, trace).0.child == m.child || (start_run(m, trace).0.child is Some && told(
            m,
            trace,
            StartEventView::ServerSpawned(Ok(start_run(m, trace).0.child->0)),
        )),
{
    if m.startable() {
        law_start_outcomes(m, trace);
    } else {
        law_start_is_idempotent(m, trace);
    }
}

/// Whatever is done to a manager, it stays sound and keeps its port.
pub proof fn law_every_state_is_sound(port: u16, ops: Seq<Operation>)
    ensures
        history(port, ops).wf(),
        history(port, ops).port == port,
    decreases ops.len(),
{
    if ops.len() > 0 {
        law_every_state_is_sound(port, ops.drop_last());
        let m = history(port, ops.drop_last());
        match ops.last() {
            Operation::Start { trace } => lemma_start_run_keeps_wf(m, trace),
            Operation::Restart { trace } => lemma_start_run_keeps_wf(stopped(m), trace),
            _ => {},
        }
    }
}

/// The process that a manager holds, and that a stop ends, is one that an
/// earlier operation launched.
pub proof fn law_only_launched_processes_are_held(port: u16, ops: Seq<Operation>)
    ensures
        history(port, ops).child matches Some(pid) ==> exists|i: int|
            launched_by(port, ops, i, pid),
    decreases ops.len(),
{
    if ops.len() > 0 {
        let prior = ops.drop_last();
        law_only_launched_processes_are_held(port, prior);
        law_every_state_is_sound(port, prior);
        let m = history(port, prior);
        if let Some(pid) = history(port, ops).child {
            match ops.last() {
                Operation::Start { trace } => lemma_start_run_keeps_wf(m, trace),
                Operation::Restart { trace } => lemma_start_run_keeps_wf(stopped(m), trace),
                _ => {},
            }
            if m.child == Some(pid) {
                let i = choose|i: int| launched_by(port, prior, i, pid);
                assert(prior.take(i) =~= ops.take(i));
                assert(launched_by(port, ops, i, pid));
            } else {
                assert(ops.take(ops.len() - 1) =~= prior);
                assert(launched_by(port, ops, ops.len() - 1, pid));
            }
        }
    }
}

} // verus!
