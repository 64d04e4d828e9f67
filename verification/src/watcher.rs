//! The watch over a server that was just launched: when it is ready, when it
//! took too long, and when it went away.

use crate::server::{
    new_server, server_url, status_of, url_text, watched, ServerState, StatusPayload, StatusView,
    START_TIMEOUT_NANOS,
};
use vstd::prelude::*;

verus! {

/// Pause between two looks at the port, in milliseconds.
pub const POLL_INTERVAL_MILLIS: u64 = 500;

/// What the watch finds at the start of a round.
#[derive(Clone, Copy, PartialEq, Eq, Structural, Debug)]
pub enum WatchEvent {
    /// The stop flag is up.
    StopRequested,
    /// The stop flag is down; the port was probed, and the clock read after it.
    Probed { up: bool, now: u64 },
}

/// What a round of the watch comes to.
#[derive(Clone, Copy, PartialEq, Eq, Structural, Debug)]
pub enum WatchVerdict {
    /// Nothing to report: pause, then look again.
    KeepWatching,
    /// The server answers for the first time: report it, pause, then look again.
    Ready,
    /// The server did not answer in time: report it and end the watch.
    TimedOut,
    /// The server answered before and does no longer: report it and end the watch.
    Lost,
    /// The server was stopped on purpose: end the watch without a report.
    Stopped,
}

impl WatchVerdict {
    /// This verdict is reported.
    pub open spec fn spec_is_reported(self) -> bool {
        self is Ready || self is TimedOut || self is Lost
    }

    /// Whether this verdict is reported.
    pub fn is_reported(self) -> (reported: bool)
        ensures
            reported == self.spec_is_reported(),
    {
        match self {
            WatchVerdict::Ready | WatchVerdict::TimedOut | WatchVerdict::Lost => true,
            WatchVerdict::KeepWatching | WatchVerdict::Stopped => false,
        }
    }

    /// The watch is over after this verdict.
    pub open spec fn spec_ends_watch(self) -> bool {
        self is TimedOut || self is Lost || self is Stopped
    }

    /// Whether the watch is over after this verdict.
    pub fn ends_watch(self) -> (ends: bool)
        ensures
            ends == self.spec_ends_watch(),
    {
        match self {
            WatchVerdict::TimedOut | WatchVerdict::Lost | WatchVerdict::Stopped => true,
            WatchVerdict::KeepWatching | WatchVerdict::Ready => false,
        }
    }
}

/// The watch over one launched server.
pub struct Watcher {
    /// The port that is watched.
    pub port: u16,
    /// When the watch began, in nanoseconds.
    pub began: u64,
    /// The server has answered.
    pub ready: bool,
}

/// More than the start timeout has passed between `began` and `now`.
pub open spec fn start_overdue(began: u64, now: u64) -> bool {
    now > began + START_TIMEOUT_NANOS
}

/// The verdict of one round of the watch that began at `began`.
pub open spec fn watch_verdict(began: u64, ready: bool, event: WatchEvent) -> WatchVerdict {
    match event {
        WatchEvent::StopRequested => WatchVerdict::Stopped,
        WatchEvent::Probed { up, now } => if ready {
            if up {
                WatchVerdict::KeepWatching
            } else {
                WatchVerdict::Lost
            }
        } else if up {
            WatchVerdict::Ready
        } else if start_overdue(began, now) {
            WatchVerdict::TimedOut
        } else {
            WatchVerdict::KeepWatching
        },
    }
}

/// A watch over `port` that begins at `now`.
pub open spec fn new_watch(port: u16, now: u64) -> Watcher {
    Watcher { port, began: now, ready: false }
}

/// The watch after a round that finds `event`, and the verdict of the round.
pub open spec fn watch_round(w: Watcher, event: WatchEvent) -> (Watcher, WatchVerdict) {
    let verdict = watch_verdict(w.began, w.ready, event);
    (Watcher { ready: w.ready || verdict is Ready, ..w }, verdict)
}

/// The status to send for `verdict` where no server manager is at hand.
pub open spec fn unmanaged_report(port: u16, verdict: WatchVerdict) -> Option<StatusView> {
    if verdict is Ready {
        Some(
            StatusView {
                state: ServerState::Running,
                port,
                url: url_text(port),
                error: None,
                elapsed_secs: None,
            },
        )
    } else {
        None
    }
}

impl Watcher {
    /// A watch over `port` that begins at `now`.
    pub fn new(port: u16, now: u64) -> (watcher: Watcher)
        ensures
            watcher == (Watcher { port, began: now, ready: false }),
            watcher == new_watch(port, now),
    {
        Watcher { port, began: now, ready: false }
    }

    /// One round of the watch.
    pub fn observe(&mut self, event: WatchEvent) -> (verdict: WatchVerdict)
        ensures
            verdict == watch_verdict(old(self).began, old(self).ready, event),
            *final(self) == (Watcher {
                ready: old(self).ready || verdict is Ready,
                ..*old(self)
            }),
            (*final(self), verdict) == watch_round(*old(self), event),
    {
        match event {
            WatchEvent::StopRequested => WatchVerdict::Stopped,
            WatchEvent::Probed { up, now } => {
                if self.ready {
                    if up {
                        WatchVerdict::KeepWatching
                    } else {
                        WatchVerdict::Lost
                    }
                } else if up {
                    self.ready = true;
                    WatchVerdict::Ready
                } else if now > self.began && now - self.began > START_TIMEOUT_NANOS {
                    WatchVerdict::TimedOut
                } else {
                    WatchVerdict::KeepWatching
                }
            },
        }
    }

    /// The status to send for `verdict` where no server manager is at hand: a
    /// server that became ready is reported as running, nothing else is reported.
    pub fn unmanaged_status(&self, verdict: WatchVerdict) -> (status: Option<StatusPayload>)
        ensures
            status is Some <==> verdict is Ready,
            status matches Some(payload) ==> payload@ == (StatusView {
                state: ServerState::Running,
                port: self.port,
                url: url_text(self.port),
                error: None,
                elapsed_secs: None,
            }),
            unmanaged_report(self.port, verdict) == (match status {
                Some(payload) => Some(payload@),
                None => None,
            }),
    {
        match verdict {
            WatchVerdict::Ready => Some(
                StatusPayload {
                    state: ServerState::Running,
                    port: self.port,
                    url: server_url(self.port),
                    error: None,
                    elapsed_secs: None,
                },
            ),
            _ => None,
        }
    }
}

// ---------------------------------------------------------------------------
// Whole watches
// ---------------------------------------------------------------------------

/// The verdicts of a watch that finds `events`, round by round, until it ends.
pub open spec fn watch_run(began: u64, ready: bool, events: Seq<WatchEvent>) -> Seq<WatchVerdict>
    decreases events.len(),
{
    if events.len() == 0 {
        seq![]
    } else {
        let verdict = watch_verdict(began, ready, events[0]);
        if verdict.spec_ends_watch() {
            seq![verdict]
        } else {
            seq![verdict] + watch_run(began, ready || verdict is Ready, events.drop_first())
        }
    }
}

/// The server answered in some round before round `i`.
pub open spec fn ready_before(verdicts: Seq<WatchVerdict>, i: int) -> bool {
    exists|j: int| 0 <= j < i && (#[trigger] verdicts[j]) is Ready
}

/// The port was probed and did not answer.
pub open spec fn port_silent(event: WatchEvent) -> bool {
    event is Probed && !event->up
}

/// A watch reports a server as ready once at most, and in the first round in which
/// the port answers. It reports a server as lost only after it was ready and in a
/// round in which the port does not answer, and as timed out only if it never was
/// ready, the port does not answer and the time is up. A stop ends the watch
/// without a report. Nothing follows a verdict that ends the watch.
pub proof fn law_watch_reports(began: u64, events: Seq<WatchEvent>, i: int)
    requires
        0 <= i < watch_run(began, false, events).len(),
    ensures
        ({
            let verdicts = watch_run(began, false, events);
            &&& verdicts.len() <= events.len()
            &&& verdicts[i] == watch_verdict(began, ready_before(verdicts, i), events[i])
            &&& verdicts[i] is Ready ==> !ready_before(verdicts, i)
            &&& verdicts[i] is Lost ==> ready_before(verdicts, i) && port_silent(events[i])
            &&& verdicts[i] is TimedOut ==> !ready_before(verdicts, i) && port_silent(events[i])
                && start_overdue(began, events[i]->now)
            &&& verdicts[i] is Stopped <==> events[i] is StopRequested
            &&& verdicts[i].spec_ends_watch() ==> i == verdicts.len() - 1
        }),
{
    lemma_watch_run(began, false, events, i);
}

proof fn lemma_watch_run(began: u64, ready: bool, events: Seq<WatchEvent>, i: int)
    requires
        0 <= i < watch_run(began, ready, events).len(),
    ensures
        ({
            let verdicts = watch_run(began, ready, events);
            &&& verdicts.len() <= events.len()
            &&& verdicts[i] == watch_verdict(
                began,
                ready || ready_before(verdicts, i),
                events[i],
            )
            &&& verdicts[i].spec_ends_watch() ==> i == verdicts.len() - 1
        }),
    decreases events.len(),
{
    let verdicts = watch_run(began, ready, events);
    let first = watch_verdict(began, ready, events[0]);
    assert(verdicts[0] == first);
    if !first.spec_ends_watch() {
        let rest = events.drop_first();
        let later = ready || first is Ready;
        let tail = watch_run(began, later, rest);
        assert(verdicts == seq![first] + tail);
        if i > 0 {
            lemma_watch_run(began, later, rest, i - 1);
            assert(verdicts[i] == tail[i - 1]);
            if ready_before(tail, i - 1) {
                let j = choose|j: int| 0 <= j < i - 1 && (#[trigger] tail[j]) is Ready;
                assert(verdicts[j + 1] is Ready);
            }
            if ready_before(verdicts, i) && !(first is Ready) {
                let j = choose|j: int| 0 <= j < i && (#[trigger] verdicts[j]) is Ready;
                assert(tail[j - 1] is Ready);
            }
        } else {
            if tail.len() > 0 {
                lemma_watch_run(began, later, rest, 0);
            }
        }
    }
}

/// The watch over `port` that began at `began`, after the rounds `events`.
pub open spec fn watch_after(port: u16, began: u64, events: Seq<WatchEvent>) -> Watcher
    decreases events.len(),
{
    if events.len() == 0 {
        new_watch(port, began)
    } else {
        watch_round(watch_after(port, began, events.drop_last()), events.last()).0
    }
}

/// In one of the rounds `events` the port answered.
pub open spec fn answered_in(events: Seq<WatchEvent>) -> bool {
    exists|i: int| 0 <= i < events.len() && #[trigger] events[i] is Probed && events[i]->up
}

/// Whatever rounds went before, the watch is still over its port, and the next round
/// comes out as follows. A stop request
/// ends the watch without a report. The first answer of the port makes the server
/// ready, at any time, and a later one changes nothing. Silence after an answer is
/// the loss of the server, at any time. Silence before any answer is a timeout once
/// more than three hundred seconds have passed since the watch began, and not
/// earlier.
pub proof fn law_next_round(port: u16, began: u64, events: Seq<WatchEvent>, now: u64)
    ensures
        ({
            let w = watch_after(port, began, events);
            let stop = watch_round(w, WatchEvent::StopRequested).1;
            let up = watch_round(w, WatchEvent::Probed { up: true, now }).1;
            let silent = watch_round(w, WatchEvent::Probed { up: false, now }).1;
            &&& w.port == port
            &&& stop == WatchVerdict::Stopped
            &&& !answered_in(events) ==> up == WatchVerdict::Ready
            &&& answered_in(events) ==> up == WatchVerdict::KeepWatching
            &&& answered_in(events) ==> silent == WatchVerdict::Lost
            &&& !answered_in(events) && now - began > 300_000_000_000 ==> silent
                == WatchVerdict::TimedOut
            &&& !answered_in(events) && now - began <= 300_000_000_000 ==> silent
                == WatchVerdict::KeepWatching
        }),
{
    lemma_watch_after(port, began, events);
}

proof fn lemma_watch_after(port: u16, began: u64, events: Seq<WatchEvent>)
    ensures
        watch_after(port, began, events) == (Watcher { port, began, ready: answered_in(events) }),
    decreases events.len(),
{
    if events.len() > 0 {
        let prior = events.drop_last();
        lemma_watch_after(port, began, prior);
        if answered_in(prior) {
            let i = choose|i: int|
                0 <= i < prior.len() && #[trigger] prior[i] is Probed && prior[i]->up;
            assert(events[i] is Probed && events[i]->up);
        }
        let last = events[events.len() - 1];
        if answered_in(events) && !(last is Probed && last->up) {
            let i = choose|i: int|
                0 <= i < events.len() && #[trigger] events[i] is Probed && events[i]->up;
            assert(prior[i] is Probed && prior[i]->up);
        }
    }
}

/// In a whole watch, silence after the server was ready is its loss, whatever the
/// time; silence before is a timeout or nothing to report; and an answer is
/// reported the first time and never again. The watch goes on for as long as it
/// finds something and has not ended.
pub proof fn law_watch_misses_nothing(began: u64, events: Seq<WatchEvent>, i: int)
    requires
        0 <= i < watch_run(began, false, events).len(),
    ensures
        ({
            let verdicts = watch_run(began, false, events);
            let ready = ready_before(verdicts, i);
            &&& ready && port_silent(events[i]) ==> verdicts[i] == WatchVerdict::Lost
            &&& !ready && port_silent(events[i]) && events[i]->now - began > 300_000_000_000
                ==> verdicts[i] == WatchVerdict::TimedOut
            &&& !ready && port_silent(events[i]) && events[i]->now - began <= 300_000_000_000
                ==> verdicts[i] == WatchVerdict::KeepWatching
            &&& !ready && events[i] is Probed && events[i]->up ==> verdicts[i]
                == WatchVerdict::Ready
            &&& ready && events[i] is Probed && events[i]->up ==> verdicts[i]
                == WatchVerdict::KeepWatching
            &&& verdicts.len() < events.len() ==> {
                ||| verdicts.last() == WatchVerdict::Lost
                ||| verdicts.last() == WatchVerdict::TimedOut
                ||| verdicts.last() == WatchVerdict::Stopped
            }
        }),
{
    lemma_watch_run(began, false, events, i);
    lemma_watch_run_is_long(began, false, events);
}

proof fn lemma_watch_run_is_long(began: u64, ready: bool, events: Seq<WatchEvent>)
    ensures
        ({
            let verdicts = watch_run(began, ready, events);
            &&& events.len() > 0 ==> verdicts.len() > 0
            &&& verdicts.len() < events.len() ==> verdicts.last().spec_ends_watch()
        }),
    decreases events.len(),
{
    if events.len() > 0 {
        let first = watch_verdict(began, ready, events[0]);
        if !first.spec_ends_watch() {
            lemma_watch_run_is_long(began, ready || first is Ready, events.drop_first());
        }
    }
}

/// A watch is over after a timeout, a loss or a stop, and goes on otherwise. What
/// is reported is that the server is ready, late or lost.
pub proof fn law_verdicts_that_end_or_are_reported(verdict: WatchVerdict)
    ensures
        verdict.spec_ends_watch() <==> verdict != WatchVerdict::KeepWatching && verdict
            != WatchVerdict::Ready,
        verdict.spec_is_reported() <==> verdict != WatchVerdict::KeepWatching && verdict
            != WatchVerdict::Stopped,
{
}

/// Without a manager at hand, a server that became ready is reported as a manager
/// of its port would report it, but for the time; nothing else is reported.
pub proof fn law_unmanaged_report_agrees(port: u16, verdict: WatchVerdict, now: u64)
    ensures
        verdict == WatchVerdict::Ready ==> unmanaged_report(port, verdict) == Some(
            status_of(watched(new_server(port), verdict), false, now),
        ),
        verdict != WatchVerdict::Ready ==> unmanaged_report(port, verdict) is None,
{
}

} // verus!
