//! The autostart switch.

use crate::server::result_of;
use vstd::prelude::*;

verus! {

/// The name of the event that carries the state of the switch.
pub const AUTOSTART_EVENT: &'static str = "autostart-changed";

/// What setting the switch asks for next.
#[derive(Debug)]
pub enum AutostartStep {
    /// Ask the system whether the switch is on.
    Query { wanted: bool },
    /// Turn the switch on or off.
    Switch { on: bool },
    /// Ask the system whether the switch is on now.
    Confirm,
    /// The switch is as wanted or as the system left it: bring the tray in line,
    /// broadcast `state`, and give it to the caller.
    Announce { state: bool },
    /// Give the message to the caller.
    Fail { message: String },
}

/// How the work that a step asked for came out.
#[derive(Debug)]
pub enum AutostartEvent {
    /// The answer to `Query` and `Confirm`.
    State(Result<bool, String>),
    /// The outcome of `Switch`.
    Switched(Result<(), String>),
}

/// What an `AutostartStep` says.
pub enum AutostartStepView {
    Query { wanted: bool },
    Switch { on: bool },
    Confirm,
    Announce { state: bool },
    Fail { message: Seq<char> },
}

/// What an `AutostartEvent` says.
pub enum AutostartEventView {
    State(Result<bool, Seq<char>>),
    Switched(Result<(), Seq<char>>),
}

impl View for AutostartStep {
    type V = AutostartStepView;

    open spec fn view(&self) -> AutostartStepView {
        match *self {
            AutostartStep::Query { wanted } => AutostartStepView::Query { wanted },
            AutostartStep::Switch { on } => AutostartStepView::Switch { on },
            AutostartStep::Confirm => AutostartStepView::Confirm,
            AutostartStep::Announce { state } => AutostartStepView::Announce { state },
            AutostartStep::Fail { message } => AutostartStepView::Fail { message: message@ },
        }
    }
}

impl View for AutostartEvent {
    type V = AutostartEventView;

    open spec fn view(&self) -> AutostartEventView {
        match *self {
            AutostartEvent::State(answer) => AutostartEventView::State(result_of(answer)),
            AutostartEvent::Switched(outcome) => AutostartEventView::Switched(
                result_of(outcome),
            ),
        }
    }
}

/// The step after `step`, whose work came out as `event`. An event that is not an
/// outcome of the step leaves it to be done.
pub open spec fn autostart_advanced(
    step: AutostartStepView,
    event: AutostartEventView,
) -> AutostartStepView {
    match (step, event) {
        (AutostartStepView::Query { wanted }, AutostartEventView::State(answer)) => match answer {
            Ok(currently) => if wanted != currently {
                AutostartStepView::Switch { on: wanted }
            } else {
                AutostartStepView::Confirm
            },
            Err(message) => AutostartStepView::Fail { message },
        },
        (AutostartStepView::Switch { on }, AutostartEventView::Switched(outcome)) => match outcome {
            Ok(_) => AutostartStepView::Confirm,
            Err(message) => AutostartStepView::Fail { message },
        },
        (AutostartStepView::Confirm, AutostartEventView::State(answer)) => match answer {
            Ok(state) => AutostartStepView::Announce { state },
            Err(message) => AutostartStepView::Fail { message },
        },
        _ => step,
    }
}

/// The first step of setting the switch to `wanted`.
pub open spec fn autostart_begun(wanted: bool) -> AutostartStepView {
    AutostartStepView::Query { wanted }
}

/// Begins to set the switch, and says what to do first.
pub fn set_autostart(enabled: bool) -> (step: AutostartStep)
    ensures
        step@ == autostart_begun(enabled),
        step@ == (AutostartStepView::Query { wanted: enabled }),
{
    AutostartStep::Query { wanted: enabled }
}

/// Goes on with setting the switch: the work of `step` came out as `event`. Says
/// what to do next.
pub fn advance_autostart(step: AutostartStep, event: AutostartEvent) -> (next: AutostartStep)
    ensures
        next@ == autostart_advanced(step@, event@),
{
    match (step, event) {
        (AutostartStep::Query { wanted }, AutostartEvent::State(answer)) => match answer {
            Ok(currently) => {
                if wanted != currently {
                    AutostartStep::Switch { on: wanted }
                } else {
                    AutostartStep::Confirm
                }
            },
            Err(message) => AutostartStep::Fail { message },
        },
        (AutostartStep::Switch { .. }, AutostartEvent::Switched(outcome)) => match outcome {
            Ok(_) => AutostartStep::Confirm,
            Err(message) => AutostartStep::Fail { message },
        },
        (AutostartStep::Confirm, AutostartEvent::State(answer)) => match answer {
            Ok(state) => AutostartStep::Announce { state },
            Err(message) => AutostartStep::Fail { message },
        },
        (step, _) => step,
    }
}

/// The state of the switch to show for the system's answer: off where it gave none.
pub open spec fn shown_state(answer: Result<bool, String>) -> bool {
    match answer {
        Ok(on) => on,
        Err(_) => false,
    }
}

/// The state of the switch to show for the system's answer: off where it gave none.
pub fn get_autostart(answer: &Result<bool, String>) -> (shown: bool)
    ensures
        shown == shown_state(*answer),
{
    match answer {
        Ok(on) => *on,
        Err(_) => false,
    }
}

/// What the tray asks the switch to be set to, for the system's answer.
pub open spec fn toggled_state(answer: Result<bool, String>) -> bool {
    !shown_state(answer)
}

/// What the tray asks the switch to be set to, for the system's answer: the
/// opposite of what is shown.
pub fn toggle_autostart(answer: &Result<bool, String>) -> (wanted: bool)
    ensures
        wanted == !shown_state(*answer),
        wanted == toggled_state(*answer),
{
    !get_autostart(answer)
}

/// The step that setting the switch to `wanted` stands at after `events`.
pub open spec fn autostart_run(
    wanted: bool,
    events: Seq<AutostartEventView>,
) -> AutostartStepView
    decreases events.len(),
{
    if events.len() == 0 {
        autostart_begun(wanted)
    } else {
        autostart_advanced(autostart_run(wanted, events.drop_last()), events.last())
    }
}

/// Event number `k` is `event`, and arrived when setting the switch stood at `step`.
pub open spec fn answered_at(
    wanted: bool,
    events: Seq<AutostartEventView>,
    k: int,
    step: AutostartStepView,
    event: AutostartEventView,
) -> bool {
    &&& 0 <= k < events.len()
    &&& events[k] == event
    &&& autostart_run(wanted, events.take(k)) == step
}

/// The step `step` of setting the switch was answered by `event`.
pub open spec fn answered(
    wanted: bool,
    events: Seq<AutostartEventView>,
    step: AutostartStepView,
    event: AutostartEventView,
) -> bool {
    exists|k: int| answered_at(wanted, events, k, step, event)
}

/// The switch is only ever turned to what is wanted, and only if the system said
/// at first that it is not so already. What is announced is what the system said
/// when it was asked to confirm, after the switch was turned or found as wanted. A
/// failure is given with the system's own message.
pub proof fn law_autostart_follows_the_system(wanted: bool, events: Seq<AutostartEventView>)
    ensures
        ({
            let query = AutostartStepView::Query { wanted };
            let switch = AutostartStepView::Switch { on: wanted };
            let confirm = AutostartStepView::Confirm;
            let differs = answered(wanted, events, query, AutostartEventView::State(Ok(!wanted)));
            let settled = {
                ||| answered(wanted, events, query, AutostartEventView::State(Ok(wanted)))
                ||| differs && answered(
                    wanted,
                    events,
                    switch,
                    AutostartEventView::Switched(Ok(())),
                )
            };
            match autostart_run(wanted, events) {
                AutostartStepView::Query { wanted: asked } => asked == wanted,
                AutostartStepView::Switch { on } => on == wanted && differs,
                AutostartStepView::Confirm => settled,
                AutostartStepView::Announce { state } => settled && answered(
                    wanted,
                    events,
                    confirm,
                    AutostartEventView::State(Ok(state)),
                ),
                AutostartStepView::Fail { message } => {
                    ||| answered(wanted, events, query, AutostartEventView::State(Err(message)))
                    ||| differs && answered(
                        wanted,
                        events,
                        switch,
                        AutostartEventView::Switched(Err(message)),
                    )
                    ||| settled && answered(
                        wanted,
                        events,
                        confirm,
                        AutostartEventView::State(Err(message)),
                    )
                },
            }
        }),
    decreases events.len(),
{
    if events.len() > 0 {
        let prior = events.drop_last();
        law_autostart_follows_the_system(wanted, prior);
        assert forall|step: AutostartStepView, event: AutostartEventView| answered(
            wanted,
            prior,
            step,
            event,
        ) implies #[trigger] answered(wanted, events, step, event) by {
            let k = choose|k: int| answered_at(wanted, prior, k, step, event);
            assert(prior.take(k) =~= events.take(k));
            assert(answered_at(wanted, events, k, step, event));
        }
        let step = autostart_run(wanted, prior);
        assert(answered(wanted, events, step, events.last())) by {
            assert(events.take(events.len() - 1) =~= prior);
            assert(answered_at(wanted, events, events.len() - 1, step, events.last()));
        }
        if let AutostartEventView::Switched(Ok(unit)) = events.last() {
            assert(unit == ());
        }
    }
}

/// Setting the switch to what it is already leaves it alone, and announces what
/// the system says.
pub proof fn law_autostart_is_idempotent(wanted: bool, state: bool)
    ensures
        autostart_run(
            wanted,
            seq![
                AutostartEventView::State(Ok(wanted)),
                AutostartEventView::State(Ok(state)),
            ],
        ) == (AutostartStepView::Announce { state }),
{
    let first = AutostartEventView::State(Ok(wanted));
    let events = seq![first, AutostartEventView::State(Ok(state))];
    assert(events.drop_last() =~= seq![first]);
    assert(seq![first].drop_last() =~= Seq::<AutostartEventView>::empty());
    assert(autostart_run(wanted, Seq::<AutostartEventView>::empty())
        == (AutostartStepView::Query { wanted }));
    assert(autostart_run(wanted, seq![first]) == AutostartStepView::Confirm);
}

/// The switch is shown on exactly if the system says that it is on, and a click in
/// the tray asks for the opposite of what is shown, so that a second click asks for
/// what was there before.
pub proof fn law_toggle_asks_for_the_opposite(on: bool, message: String)
    ensures
        shown_state(Ok(on)) == on,
        !shown_state(Err(message)),
        toggled_state(Ok(on)) == !on,
        toggled_state(Err(message)),
        toggled_state(Ok(toggled_state(Ok(on)))) == on,
{
}

proof fn lemma_autostart_run_push(
    wanted: bool,
    events: Seq<AutostartEventView>,
    event: AutostartEventView,
)
    ensures
        autostart_run(wanted, events.push(event)) == autostart_advanced(
            autostart_run(wanted, events),
            event,
        ),
{
    assert(events.push(event).drop_last() =~= events);
}

/// Setting the switch first asks the system. Where the answer is not what is
/// wanted, the switch is turned to what is wanted, and only there. Then the system
/// is asked again, and its second answer is announced.
pub proof fn law_autostart_runs(wanted: bool, state: bool)
    ensures
        ({
            let none = Seq::<AutostartEventView>::empty();
            let same = none.push(AutostartEventView::State(Ok(wanted)));
            let other = none.push(AutostartEventView::State(Ok(!wanted)));
            let turned = other.push(AutostartEventView::Switched(Ok(())));
            let said = AutostartEventView::State(Ok(state));
            &&& autostart_run(wanted, none) == (AutostartStepView::Query { wanted })
            &&& autostart_run(wanted, same) == AutostartStepView::Confirm
            &&& autostart_run(wanted, same.push(said)) == (AutostartStepView::Announce { state })
            &&& autostart_run(wanted, other) == (AutostartStepView::Switch { on: wanted })
            &&& autostart_run(wanted, turned) == AutostartStepView::Confirm
            &&& autostart_run(wanted, turned.push(said)) == (AutostartStepView::Announce { state })
        }),
{
    let none = Seq::<AutostartEventView>::empty();
    let same = AutostartEventView::State(Ok(wanted));
    let other = AutostartEventView::State(Ok(!wanted));
    let turned = AutostartEventView::Switched(Ok(()));
    let said = AutostartEventView::State(Ok(state));
    lemma_autostart_run_push(wanted, none, same);
    lemma_autostart_run_push(wanted, none.push(same), said);
    lemma_autostart_run_push(wanted, none, other);
    lemma_autostart_run_push(wanted, none.push(other), turned);
    lemma_autostart_run_push(wanted, none.push(other).push(turned), said);
    assert(autostart_run(wanted, none) == (AutostartStepView::Query { wanted }));
}

/// A failure of the system, at the first answer, at the turn of the switch or at
/// the second answer, ends in a failure with its message, and nothing is announced.
pub proof fn law_autostart_failures(wanted: bool, message: Seq<char>)
    ensures
        ({
            let none = Seq::<AutostartEventView>::empty();
            let fail = AutostartStepView::Fail { message };
            let same = none.push(AutostartEventView::State(Ok(wanted)));
            let other = none.push(AutostartEventView::State(Ok(!wanted)));
            let turned = other.push(AutostartEventView::Switched(Ok(())));
            &&& autostart_run(wanted, none.push(AutostartEventView::State(Err(message)))) == fail
            &&& autostart_run(wanted, other.push(AutostartEventView::Switched(Err(message))))
                == fail
            &&& autostart_run(wanted, same.push(AutostartEventView::State(Err(message)))) == fail
            &&& autostart_run(wanted, turned.push(AutostartEventView::State(Err(message)))) == fail
        }),
{
    let none = Seq::<AutostartEventView>::empty();
    let same = none.push(AutostartEventView::State(Ok(wanted)));
    let other = none.push(AutostartEventView::State(Ok(!wanted)));
    let turned = other.push(AutostartEventView::Switched(Ok(())));
    law_autostart_runs(wanted, wanted);
    lemma_autostart_run_push(wanted, none, AutostartEventView::State(Err(message)));
    lemma_autostart_run_push(wanted, other, AutostartEventView::Switched(Err(message)));
    lemma_autostart_run_push(wanted, same, AutostartEventView::State(Err(message)));
    lemma_autostart_run_push(wanted, turned, AutostartEventView::State(Err(message)));
}

/// What was announced or has failed stays so, and an event that does not answer the
/// step leaves it to be done.
pub proof fn law_autostart_ignores_other_events(step: AutostartStepView, event: AutostartEventView)
    requires
        match step {
            AutostartStepView::Query { .. } => event is Switched,
            AutostartStepView::Confirm => event is Switched,
            AutostartStepView::Switch { .. } => event is State,
            AutostartStepView::Announce { .. } => true,
            AutostartStepView::Fail { .. } => true,
        },
    ensures
        autostart_advanced(step, event) == step,
{
}

} // verus!
