use harness_desktop::autostart::{
    advance_autostart, get_autostart, set_autostart, toggle_autostart, AutostartEvent,
    AutostartStep, AUTOSTART_EVENT,
};

fn state(on: bool) -> AutostartEvent {
    AutostartEvent::State(Ok(on))
}

fn message(step: AutostartStep) -> String {
    match step {
        AutostartStep::Fail { message } => message,
        other => panic!("{:?}", other),
    }
}

#[test]
fn switch_is_turned_where_it_differs() {
    assert_eq!(AUTOSTART_EVENT, "autostart-changed");
    for wanted in [true, false] {
        let step = set_autostart(wanted);
        let step = advance_autostart(step, state(!wanted));
        match step {
            AutostartStep::Switch { on } => assert_eq!(on, wanted),
            ref other => panic!("{:?}", other),
        }
        let step = advance_autostart(step, AutostartEvent::Switched(Ok(())));
        assert!(matches!(step, AutostartStep::Confirm));
        match advance_autostart(step, state(wanted)) {
            AutostartStep::Announce { state } => assert_eq!(state, wanted),
            other => panic!("{:?}", other),
        }
    }
}

#[test]
fn switch_is_left_where_it_agrees() {
    for wanted in [true, false] {
        let step = advance_autostart(set_autostart(wanted), state(wanted));
        assert!(matches!(step, AutostartStep::Confirm));
    }
}

#[test]
fn announced_state_is_the_confirmed_one() {
    let step = advance_autostart(AutostartStep::Confirm, state(false));
    assert!(matches!(step, AutostartStep::Announce { state: false }));
    let step = advance_autostart(AutostartStep::Confirm, state(true));
    assert!(matches!(step, AutostartStep::Announce { state: true }));
}

#[test]
fn autostart_failures_carry_their_messages() {
    let err = || String::from("registry");
    let first = advance_autostart(set_autostart(true), AutostartEvent::State(Err(err())));
    assert_eq!(message(first), "registry");
    let second = advance_autostart(
        AutostartStep::Switch { on: true },
        AutostartEvent::Switched(Err(err())),
    );
    assert_eq!(message(second), "registry");
    let third = advance_autostart(AutostartStep::Confirm, AutostartEvent::State(Err(err())));
    assert_eq!(message(third), "registry");
}

#[test]
fn autostart_event_out_of_turn_is_ignored() {
    let step = advance_autostart(set_autostart(true), AutostartEvent::Switched(Ok(())));
    assert!(matches!(step, AutostartStep::Query { wanted: true }));
}

#[test]
fn shown_state_and_toggle() {
    assert!(get_autostart(&Ok(true)));
    assert!(!get_autostart(&Ok(false)));
    assert!(!get_autostart(&Err(String::from("registry"))));
    assert!(!toggle_autostart(&Ok(true)));
    assert!(toggle_autostart(&Ok(false)));
    assert!(toggle_autostart(&Err(String::from("registry"))));
}
