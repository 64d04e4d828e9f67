//! The upgrade of the server's package: stop the server, drop the package from
//! the npx cache, start the server again, and tell how it went.

use crate::npm_cache::{npx_place, NPX_FOLDER};
use crate::place::{place_in, Place, PlaceView};
use std::path::PathBuf;
use vstd::prelude::*;

verus! {

/// The name of the event that carries an `UpgradeStatus`.
pub const UPGRADE_EVENT: &'static str = "upgrade-status";

/// Pause between the stop and the removal, in milliseconds: the stopped processes
/// let go of their files.
pub const SETTLE_MILLIS: u64 = 600;

// ---------------------------------------------------------------------------
// Reports
// ---------------------------------------------------------------------------

/// A report on an upgrade.
#[derive(Debug)]
pub enum UpgradeStatus {
    /// The upgrade has begun.
    Started,
    /// The server is starting again.
    Done { cache_cleared: bool },
    /// The server could not be started again.
    Error { message: String },
}

/// What an `UpgradeStatus` says.
pub enum UpgradeStatusView {
    Started,
    Done { cache_cleared: bool },
    Error { message: Seq<char> },
}

impl View for UpgradeStatus {
    type V = UpgradeStatusView;

    open spec fn view(&self) -> UpgradeStatusView {
        match *self {
            UpgradeStatus::Started => UpgradeStatusView::Started,
            UpgradeStatus::Done { cache_cleared } => UpgradeStatusView::Done { cache_cleared },
            UpgradeStatus::Error { message } => UpgradeStatusView::Error { message: message@ },
        }
    }
}

/// `serde_json::Value`, carried through unread.
#[verifier::external_type_specification]
#[verifier::external_body]
pub struct ExJsonValue(serde_json::Value);

/// `serde_json::Map`, a JSON object.
#[verifier::external_type_specification]
#[verifier::external_body]
#[verifier::reject_recursive_types(K)]
#[verifier::reject_recursive_types(V)]
pub struct ExJsonMap<K, V>(serde_json::Map<K, V>);

/// A value in a JSON object.
enum Member {
    Text(String),
    Flag(bool),
}

/// What a `Member` says.
pub enum MemberView {
    Text(Seq<char>),
    Flag(bool),
}

impl View for Member {
    type V = MemberView;

    closed spec fn view(&self) -> MemberView {
        match *self {
            Member::Text(text) => MemberView::Text(text@),
            Member::Flag(flag) => MemberView::Flag(flag),
        }
    }
}

/// The strings and booleans that a JSON object holds, by their keys.
pub uninterp spec fn json_members(
    object: serde_json::Map<String, serde_json::Value>,
) -> Map<Seq<char>, MemberView>;

/// Nothing under any key.
pub open spec fn no_members() -> Map<Seq<char>, MemberView> {
    Map::empty()
}

/// `serde_json::Map::new`: the object holds nothing.
#[verifier::external_body]
fn new_object() -> (object: serde_json::Map<String, serde_json::Value>)
    ensures
        json_members(object) == no_members(),
{
    serde_json::Map::new()
}

/// `serde_json::Map::insert`: afterwards the object holds the string or boolean
/// under the key, in place of what it held there, and all else as before.
#[verifier::external_body]
fn insert_member(
    object: &mut serde_json::Map<String, serde_json::Value>,
    key: &str,
    member: Member,
)
    ensures
        json_members(*final(object)) == json_members(*old(object)).insert(key@, member@),
{
    let value = match member {
        Member::Text(text) => serde_json::Value::String(text),
        Member::Flag(flag) => serde_json::Value::Bool(flag),
    };
    object.insert(key.to_string(), value);
}

/// The JSON object of a report.
pub open spec fn report_members(status: UpgradeStatusView) -> Map<Seq<char>, MemberView> {
    match status {
        UpgradeStatusView::Started => map!["state"@ => MemberView::Text("started"@)],
        UpgradeStatusView::Done { cache_cleared } => map![
            "state"@ => MemberView::Text("done"@),
            "cacheCleared"@ => MemberView::Flag(cache_cleared),
        ],
        UpgradeStatusView::Error { message } => map![
            "state"@ => MemberView::Text("error"@),
            "message"@ => MemberView::Text(message),
        ],
    }
}

/// The JSON object of a report.
pub fn report_object(status: &UpgradeStatus) -> (object: serde_json::Map<
    String,
    serde_json::Value,
>)
    ensures
        json_members(object) == report_members(status@),
{
    let mut object = new_object();
    match status {
        UpgradeStatus::Started => {
            insert_member(&mut object, "state", Member::Text("started".to_string()));
        },
        UpgradeStatus::Done { cache_cleared } => {
            insert_member(&mut object, "state", Member::Text("done".to_string()));
            insert_member(&mut object, "cacheCleared", Member::Flag(*cache_cleared));
        },
        UpgradeStatus::Error { message } => {
            insert_member(&mut object, "state", Member::Text("error".to_string()));
            insert_member(&mut object, "message", Member::Text(message.clone()));
        },
    }
    object
}

// ---------------------------------------------------------------------------
// Steps
// ---------------------------------------------------------------------------

/// What an upgrade asks for next.
#[derive(Debug)]
pub enum UpgradeStep {
    /// Send the report.
    Report { status: UpgradeStatus },
    /// Stop the server, if there is a manager of it.
    StopServer,
    /// Pause for `SETTLE_MILLIS`.
    Settle,
    /// Find the npm cache.
    LocateCache,
    /// Drop the package from the npx directory at `npx_dir`.
    ClearCache { npx_dir: Place },
    /// Start the server, if there is a manager of it.
    StartServer { cache_cleared: bool },
    /// The upgrade is over.
    Finish,
}

/// How the work that a step asked for came out.
#[derive(Debug)]
pub enum UpgradeEvent {
    /// The report was sent, the server stopped or the pause is over.
    Done,
    /// The directory of the cache, and none where it was not found.
    CacheLocated(Option<PathBuf>),
    /// Whether the package was removed.
    CacheCleared(bool),
    /// How the start came out, and none where there is no manager of the server.
    ServerStarted(Option<Result<(), String>>),
}

/// What an `UpgradeStep` says.
pub enum UpgradeStepView {
    Report { status: UpgradeStatusView },
    StopServer,
    Settle,
    LocateCache,
    ClearCache { npx_dir: PlaceView },
    StartServer { cache_cleared: bool },
    Finish,
}

/// What an `UpgradeEvent` says.
pub enum UpgradeEventView {
    Done,
    CacheLocated(Option<PathBuf>),
    CacheCleared(bool),
    ServerStarted(Option<Result<(), Seq<char>>>),
}

impl View for UpgradeStep {
    type V = UpgradeStepView;

    open spec fn view(&self) -> UpgradeStepView {
        match *self {
            UpgradeStep::Report { status } => UpgradeStepView::Report { status: status@ },
            UpgradeStep::StopServer => UpgradeStepView::StopServer,
            UpgradeStep::Settle => UpgradeStepView::Settle,
            UpgradeStep::LocateCache => UpgradeStepView::LocateCache,
            UpgradeStep::ClearCache { npx_dir } => UpgradeStepView::ClearCache { npx_dir: npx_dir@ },
            UpgradeStep::StartServer { cache_cleared } => UpgradeStepView::StartServer {
                cache_cleared,
            },
            UpgradeStep::Finish => UpgradeStepView::Finish,
        }
    }
}

impl View for UpgradeEvent {
    type V = UpgradeEventView;

    open spec fn view(&self) -> UpgradeEventView {
        match *self {
            UpgradeEvent::Done => UpgradeEventView::Done,
            UpgradeEvent::CacheLocated(dir) => UpgradeEventView::CacheLocated(dir),
            UpgradeEvent::CacheCleared(removed) => UpgradeEventView::CacheCleared(removed),
            UpgradeEvent::ServerStarted(outcome) => UpgradeEventView::ServerStarted(
                match outcome {
                    None => None,
                    Some(Ok(_)) => Some(Ok(())),
                    Some(Err(message)) => Some(Err(message@)),
                },
            ),
        }
    }
}

/// The first step of an upgrade.
pub open spec fn upgrade_begun() -> UpgradeStepView {
    UpgradeStepView::Report { status: UpgradeStatusView::Started }
}

/// The step after `step`, whose work came out as `event`. An event that is not an
/// outcome of the step leaves it to be done.
pub open spec fn upgrade_advanced(step: UpgradeStepView, event: UpgradeEventView) -> UpgradeStepView {
    match (step, event) {
        (UpgradeStepView::Report { status }, UpgradeEventView::Done) => if status is Started {
            UpgradeStepView::StopServer
        } else {
            UpgradeStepView::Finish
        },
        (UpgradeStepView::StopServer, UpgradeEventView::Done) => UpgradeStepView::Settle,
        (UpgradeStepView::Settle, UpgradeEventView::Done) => UpgradeStepView::LocateCache,
        (UpgradeStepView::LocateCache, UpgradeEventView::CacheLocated(found)) => match found {
            Some(dir) => UpgradeStepView::ClearCache { npx_dir: place_in(dir, NPX_FOLDER@) },
            None => UpgradeStepView::StartServer { cache_cleared: false },
        },
        (UpgradeStepView::ClearCache { .. }, UpgradeEventView::CacheCleared(removed)) =>
            UpgradeStepView::StartServer { cache_cleared: removed },
        (
            UpgradeStepView::StartServer { cache_cleared },
            UpgradeEventView::ServerStarted(outcome),
        ) => match outcome {
            None => UpgradeStepView::Finish,
            Some(Ok(_)) => UpgradeStepView::Report {
                status: UpgradeStatusView::Done { cache_cleared },
            },
            Some(Err(message)) => UpgradeStepView::Report {
                status: UpgradeStatusView::Error { message },
            },
        },
        _ => step,
    }
}

/// Begins an upgrade, and says what to do first.
pub fn upgrade_dsh() -> (step: UpgradeStep)
    ensures
        step@ == upgrade_begun(),
{
    UpgradeStep::Report { status: UpgradeStatus::Started }
}

/// Goes on with an upgrade: the work of `step` came out as `event`. Says what to
/// do next.
pub fn advance_upgrade(step: UpgradeStep, event: UpgradeEvent) -> (next: UpgradeStep)
    ensures
        next@ == upgrade_advanced(step@, event@),
{
    match (step, event) {
        (UpgradeStep::Report { status }, UpgradeEvent::Done) => match status {
            UpgradeStatus::Started => UpgradeStep::StopServer,
            _ => UpgradeStep::Finish,
        },
        (UpgradeStep::StopServer, UpgradeEvent::Done) => UpgradeStep::Settle,
        (UpgradeStep::Settle, UpgradeEvent::Done) => UpgradeStep::LocateCache,
        (UpgradeStep::LocateCache, UpgradeEvent::CacheLocated(found)) => match found {
            Some(dir) => UpgradeStep::ClearCache { npx_dir: npx_place(dir) },
            None => UpgradeStep::StartServer { cache_cleared: false },
        },
        (UpgradeStep::ClearCache { .. }, UpgradeEvent::CacheCleared(removed)) =>
            UpgradeStep::StartServer { cache_cleared: removed },
        (UpgradeStep::StartServer { cache_cleared }, UpgradeEvent::ServerStarted(outcome)) => {
            match outcome {
                None => UpgradeStep::Finish,
                Some(Ok(_)) => UpgradeStep::Report {
                    status: UpgradeStatus::Done { cache_cleared },
                },
                Some(Err(message)) => UpgradeStep::Report {
                    status: UpgradeStatus::Error { message },
                },
            }
        },
        (step, _) => step,
    }
}

// ---------------------------------------------------------------------------
// Whole upgrades
// ---------------------------------------------------------------------------

/// The steps that an upgrade goes through when it is told `events`.
pub open spec fn upgrade_run(events: Seq<UpgradeEventView>) -> Seq<UpgradeStepView>
    decreases events.len(),
{
    if events.len() == 0 {
        seq![upgrade_begun()]
    } else {
        let before = upgrade_run(events.drop_last());
        before.push(upgrade_advanced(before.last(), events.last()))
    }
}

/// `event` is an outcome of the work that `step` asks for.
pub open spec fn upgrade_answers(step: UpgradeStepView, event: UpgradeEventView) -> bool {
    match step {
        UpgradeStepView::Report { .. } => event is Done,
        UpgradeStepView::StopServer => event is Done,
        UpgradeStepView::Settle => event is Done,
        UpgradeStepView::LocateCache => event is CacheLocated,
        UpgradeStepView::ClearCache { .. } => event is CacheCleared,
        UpgradeStepView::StartServer { .. } => event is ServerStarted,
        UpgradeStepView::Finish => false,
    }
}

/// Event number `k` is `event`, and answers the step that the upgrade stood at.
pub open spec fn upgrade_took(events: Seq<UpgradeEventView>, k: int, event: UpgradeEventView) -> bool {
    &&& 0 <= k < events.len()
    &&& events[k] == event
    &&& upgrade_answers(upgrade_run(events.take(k)).last(), event)
}

/// The upgrade was told `event` in answer to the step that it stood at.
pub open spec fn upgrade_told(events: Seq<UpgradeEventView>, event: UpgradeEventView) -> bool {
    exists|k: int| upgrade_took(events, k, event)
}

proof fn lemma_upgrade_told_grows(events: Seq<UpgradeEventView>, event: UpgradeEventView)
    requires
        events.len() > 0,
    ensures
        upgrade_told(events.drop_last(), event) ==> upgrade_told(events, event),
        upgrade_answers(upgrade_run(events.drop_last()).last(), events.last()) ==> upgrade_told(
            events,
            events.last(),
        ),
{
    let prior = events.drop_last();
    if upgrade_told(prior, event) {
        let k = choose|k: int| upgrade_took(prior, k, event);
        assert(prior.take(k) =~= events.take(k));
        assert(upgrade_took(events, k, event));
    }
    if upgrade_answers(upgrade_run(prior).last(), events.last()) {
        assert(events.take(events.len() - 1) =~= prior);
        assert(upgrade_took(events, events.len() - 1, events.last()));
    }
}

/// The steps in `steps` up to the removal of the package: the server was stopped,
/// its files were let go of, and the cache was looked for.
pub open spec fn made_ready(steps: Seq<UpgradeStepView>) -> bool {
    &&& steps.contains(UpgradeStepView::StopServer)
    &&& steps.contains(UpgradeStepView::Settle)
    &&& steps.contains(UpgradeStepView::LocateCache)
}

/// The server was started, or it was tried.
pub open spec fn started(steps: Seq<UpgradeStepView>) -> bool {
    ||| steps.contains(UpgradeStepView::StartServer { cache_cleared: true })
    ||| steps.contains(UpgradeStepView::StartServer { cache_cleared: false })
}

/// The package was to be dropped from the npx directory of the cache `dir`, which
/// was located.
pub open spec fn cleared_in(
    steps: Seq<UpgradeStepView>,
    events: Seq<UpgradeEventView>,
    dir: PathBuf,
) -> bool {
    &&& steps.contains(UpgradeStepView::ClearCache { npx_dir: place_in(dir, NPX_FOLDER@) })
    &&& upgrade_told(events, UpgradeEventView::CacheLocated(Some(dir)))
}

/// The removal from the cache that was located said that the package was removed
/// if `cleared`; otherwise it said that it was not, or there is no cache.
pub open spec fn clearing_told(
    steps: Seq<UpgradeStepView>,
    events: Seq<UpgradeEventView>,
    cleared: bool,
) -> bool {
    if cleared {
        &&& exists|dir: PathBuf| cleared_in(steps, events, dir)
        &&& upgrade_told(events, UpgradeEventView::CacheCleared(true))
    } else {
        ||| upgrade_told(events, UpgradeEventView::CacheLocated(None))
        ||| {
            &&& exists|dir: PathBuf| cleared_in(steps, events, dir)
            &&& upgrade_told(events, UpgradeEventView::CacheCleared(false))
        }
    }
}

/// The package is removed, and the server started, only after the server was
/// stopped, and the package is removed from the npx directory of the cache that was
/// located. The cache is reported as cleared only if the removal said so, and as
/// not cleared only if the removal said so or the cache was not found. The final
/// report tells how the start came out, and an upgrade does not end without a
/// start.
pub proof fn law_upgrade_order(events: Seq<UpgradeEventView>)
    ensures
        ({
            let steps = upgrade_run(events);
            match steps.last() {
                UpgradeStepView::Report { status } => match status {
                    UpgradeStatusView::Started => true,
                    UpgradeStatusView::Done { cache_cleared } => {
                        &&& made_ready(steps)
                        &&& steps.contains(UpgradeStepView::StartServer { cache_cleared })
                        &&& clearing_told(steps, events, cache_cleared)
                        &&& upgrade_told(events, UpgradeEventView::ServerStarted(Some(Ok(()))))
                    },
                    UpgradeStatusView::Error { message } => {
                        &&& made_ready(steps)
                        &&& started(steps)
                        &&& upgrade_told(
                            events,
                            UpgradeEventView::ServerStarted(Some(Err(message))),
                        )
                    },
                },
                UpgradeStepView::StopServer => true,
                UpgradeStepView::Settle => steps.contains(UpgradeStepView::StopServer),
                UpgradeStepView::LocateCache => {
                    &&& steps.contains(UpgradeStepView::StopServer)
                    &&& steps.contains(UpgradeStepView::Settle)
                },
                UpgradeStepView::ClearCache { npx_dir } => {
                    &&& made_ready(steps)
                    &&& cleared_in(steps, events, npx_dir.base)
                    &&& npx_dir == place_in(npx_dir.base, NPX_FOLDER@)
                },
                UpgradeStepView::StartServer { cache_cleared } => {
                    &&& made_ready(steps)
                    &&& clearing_told(steps, events, cache_cleared)
                },
                UpgradeStepView::Finish => made_ready(steps) && started(steps),
            }
        }),
        upgrade_run(events).len() == events.len() + 1,
        upgrade_run(events)[0] == upgrade_begun(),
    decreases events.len(),
{
    if events.len() > 0 {
        let prior = events.drop_last();
        law_upgrade_order(prior);
        let before = upgrade_run(prior);
        let steps = upgrade_run(events);
        assert forall|step: UpgradeStepView| before.contains(step) implies steps.contains(
            step,
        ) by {
            let k = choose|k: int| 0 <= k < before.len() && before[k] == step;
            assert(steps[k] == step);
        }
        assert(before.contains(before.last())) by {
            assert(before[before.len() - 1] == before.last());
        }
        assert(steps.contains(steps.last())) by {
            assert(steps[steps.len() - 1] == steps.last());
        }
        assert forall|event: UpgradeEventView| upgrade_told(
            prior,
            event,
        ) implies #[trigger] upgrade_told(events, event) by {
            lemma_upgrade_told_grows(events, event);
        }
        lemma_upgrade_told_grows(events, events.last());
        assert forall|dir: PathBuf| #[trigger] cleared_in(before, prior, dir) implies cleared_in(
            steps,
            events,
            dir,
        ) by {
            lemma_upgrade_told_grows(events, UpgradeEventView::CacheLocated(Some(dir)));
        }
        if let UpgradeEventView::ServerStarted(Some(Ok(unit))) = events.last() {
            assert(unit == ());
        }
    }
}

/// The object of a report holds, under `state`, that the upgrade has begun, is done
/// or has failed, and which of these depends on the kind of the report alone. A
/// report that it is done also holds whether the cache was cleared, one that it has
/// failed the message, and none holds anything else.
pub proof fn law_report_tells_its_kind(status: UpgradeStatusView, key: Seq<char>)
    ensures
        ({
            let object = report_members(status);
            &&& object.contains_key("state"@)
            &&& status is Started <==> object["state"@] == MemberView::Text("started"@)
            &&& status is Done <==> object["state"@] == MemberView::Text("done"@)
            &&& status is Error <==> object["state"@] == MemberView::Text("error"@)
            &&& status matches UpgradeStatusView::Done { cache_cleared } ==> {
                &&& object.contains_key("cacheCleared"@)
                &&& object["cacheCleared"@] == MemberView::Flag(cache_cleared)
            }
            &&& status matches UpgradeStatusView::Error { message } ==> {
                &&& object.contains_key("message"@)
                &&& object["message"@] == MemberView::Text(message)
            }
            &&& object.contains_key(key) ==> {
                ||| key == "state"@
                ||| key == "cacheCleared"@ && status is Done
                ||| key == "message"@ && status is Error
            }
        }),
{
    reveal_strlit("state");
    reveal_strlit("cacheCleared");
    reveal_strlit("message");
    reveal_strlit("started");
    reveal_strlit("done");
    reveal_strlit("error");
    assert("state"@[0] == 's');
    assert("cacheCleared"@[0] == 'c');
    assert("message"@[0] == 'm');
    assert("started"@[0] == 's');
    assert("done"@[0] == 'd');
    assert("error"@[0] == 'e');
}

proof fn lemma_upgrade_run_push(events: Seq<UpgradeEventView>, event: UpgradeEventView)
    ensures
        upgrade_run(events.push(event)) == upgrade_run(events).push(
            upgrade_advanced(upgrade_run(events).last(), event),
        ),
{
    assert(events.push(event).drop_last() =~= events);
}

/// The events of an upgrade up to where it looks for the cache.
pub open spec fn up_to_cache() -> Seq<UpgradeEventView> {
    seq![UpgradeEventView::Done, UpgradeEventView::Done, UpgradeEventView::Done]
}

/// The steps of an upgrade up to where it looks for the cache.
pub open spec fn steps_up_to_cache() -> Seq<UpgradeStepView> {
    seq![
        UpgradeStepView::Report { status: UpgradeStatusView::Started },
        UpgradeStepView::StopServer,
        UpgradeStepView::Settle,
        UpgradeStepView::LocateCache,
    ]
}

proof fn lemma_up_to_cache()
    ensures
        upgrade_run(up_to_cache()) == steps_up_to_cache(),
{
    let none = Seq::<UpgradeEventView>::empty();
    let done = UpgradeEventView::Done;
    lemma_upgrade_run_push(none, done);
    lemma_upgrade_run_push(none.push(done), done);
    lemma_upgrade_run_push(none.push(done).push(done), done);
    assert(upgrade_run(none) == seq![upgrade_begun()]);
    assert(none.push(done).push(done).push(done) =~= up_to_cache());
    assert(upgrade_run(up_to_cache()) =~= steps_up_to_cache());
}

/// The report of an upgrade that started the server with `outcome`, if there is one
/// to make.
pub open spec fn is_final_step(
    step: UpgradeStepView,
    cleared: bool,
    outcome: Option<Result<(), Seq<char>>>,
) -> bool {
    match outcome {
        None => step == UpgradeStepView::Finish,
        Some(Ok(_)) => step == (UpgradeStepView::Report {
            status: UpgradeStatusView::Done { cache_cleared: cleared },
        }),
        Some(Err(message)) => step == (UpgradeStepView::Report {
            status: UpgradeStatusView::Error { message },
        }),
    }
}

/// An upgrade that finds the cache reports that it has begun, stops the server,
/// pauses, clears the npx directory of the cache, starts the server, and reports
/// what the removal and the start came to; then it is over.
pub proof fn law_upgrade_with_cache(
    dir: PathBuf,
    removed: bool,
    outcome: Option<Result<(), Seq<char>>>,
)
    ensures
        ({
            let located = up_to_cache().push(UpgradeEventView::CacheLocated(Some(dir)));
            let cleared = located.push(UpgradeEventView::CacheCleared(removed));
            let tried = cleared.push(UpgradeEventView::ServerStarted(outcome));
            let told = tried.push(UpgradeEventView::Done);
            let npx_dir = PlaceView { base: dir, parts: seq!["_npx"@] };
            &&& upgrade_run(cleared) == steps_up_to_cache().push(
                UpgradeStepView::ClearCache { npx_dir },
            ).push(UpgradeStepView::StartServer { cache_cleared: removed })
            &&& is_final_step(upgrade_run(tried).last(), removed, outcome)
            &&& upgrade_run(told).last() == UpgradeStepView::Finish
        }),
{
    lemma_up_to_cache();
    let locate = UpgradeEventView::CacheLocated(Some(dir));
    let clear = UpgradeEventView::CacheCleared(removed);
    let start = UpgradeEventView::ServerStarted(outcome);
    let located = up_to_cache().push(locate);
    let cleared = located.push(clear);
    let tried = cleared.push(start);
    lemma_upgrade_run_push(up_to_cache(), locate);
    lemma_upgrade_run_push(located, clear);
    lemma_upgrade_run_push(cleared, start);
    lemma_upgrade_run_push(tried, UpgradeEventView::Done);
    assert(steps_up_to_cache().last() == UpgradeStepView::LocateCache);
    assert(place_in(dir, NPX_FOLDER@) =~= PlaceView { base: dir, parts: seq!["_npx"@] });
}

/// An upgrade that finds no cache starts the server all the same, and reports that
/// nothing was cleared and what the start came to; then it is over.
pub proof fn law_upgrade_without_cache(outcome: Option<Result<(), Seq<char>>>)
    ensures
        ({
            let located = up_to_cache().push(UpgradeEventView::CacheLocated(None));
            let tried = located.push(UpgradeEventView::ServerStarted(outcome));
            let told = tried.push(UpgradeEventView::Done);
            &&& upgrade_run(located) == steps_up_to_cache().push(
                UpgradeStepView::StartServer { cache_cleared: false },
            )
            &&& is_final_step(upgrade_run(tried).last(), false, outcome)
            &&& upgrade_run(told).last() == UpgradeStepView::Finish
        }),
{
    lemma_up_to_cache();
    let locate = UpgradeEventView::CacheLocated(None);
    let start = UpgradeEventView::ServerStarted(outcome);
    let located = up_to_cache().push(locate);
    let tried = located.push(start);
    lemma_upgrade_run_push(up_to_cache(), locate);
    lemma_upgrade_run_push(located, start);
    lemma_upgrade_run_push(tried, UpgradeEventView::Done);
    assert(steps_up_to_cache().last() == UpgradeStepView::LocateCache);
}

/// An event that does not answer the step leaves it to be done.
pub proof fn law_upgrade_ignores_other_events(step: UpgradeStepView, event: UpgradeEventView)
    requires
        !upgrade_answers(step, event),
    ensures
        upgrade_advanced(step, event) == step,
{
}

} // verus!
