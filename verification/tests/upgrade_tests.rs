use harness_desktop::upgrade::{
    advance_upgrade, report_object, upgrade_dsh, UpgradeEvent, UpgradeStatus, UpgradeStep,
    SETTLE_MILLIS, UPGRADE_EVENT,
};
use serde_json::Value;
use std::path::PathBuf;

fn to_locate() -> UpgradeStep {
    let step = upgrade_dsh();
    assert!(matches!(step, UpgradeStep::Report { status: UpgradeStatus::Started }));
    let step = advance_upgrade(step, UpgradeEvent::Done);
    assert!(matches!(step, UpgradeStep::StopServer));
    let step = advance_upgrade(step, UpgradeEvent::Done);
    assert!(matches!(step, UpgradeStep::Settle));
    let step = advance_upgrade(step, UpgradeEvent::Done);
    assert!(matches!(step, UpgradeStep::LocateCache));
    step
}

#[test]
fn upgrade_clears_the_cache_and_starts_again() {
    assert_eq!(UPGRADE_EVENT, "upgrade-status");
    assert_eq!(SETTLE_MILLIS, 600);
    for removed in [true, false] {
        let step = advance_upgrade(to_locate(), UpgradeEvent::CacheLocated(Some(PathBuf::from("c"))));
        match step {
            UpgradeStep::ClearCache { ref npx_dir } => {
                assert_eq!(npx_dir.base, PathBuf::from("c"));
                assert_eq!(npx_dir.parts, vec!["_npx"]);
            }
            ref other => panic!("{:?}", other),
        }
        let step = advance_upgrade(step, UpgradeEvent::CacheCleared(removed));
        match step {
            UpgradeStep::StartServer { cache_cleared } => assert_eq!(cache_cleared, removed),
            ref other => panic!("{:?}", other),
        }
        let step = advance_upgrade(step, UpgradeEvent::ServerStarted(Some(Ok(()))));
        match step {
            UpgradeStep::Report { status: UpgradeStatus::Done { cache_cleared } } => {
                assert_eq!(cache_cleared, removed)
            }
            ref other => panic!("{:?}", other),
        }
        assert!(matches!(advance_upgrade(step, UpgradeEvent::Done), UpgradeStep::Finish));
    }
}

#[test]
fn upgrade_without_a_cache_still_starts() {
    let step = advance_upgrade(to_locate(), UpgradeEvent::CacheLocated(None));
    assert!(matches!(step, UpgradeStep::StartServer { cache_cleared: false }));
}

#[test]
fn upgrade_reports_a_failed_start() {
    let step = UpgradeStep::StartServer { cache_cleared: true };
    let step = advance_upgrade(
        step,
        UpgradeEvent::ServerStarted(Some(Err(String::from("no node")))),
    );
    match step {
        UpgradeStep::Report { status: UpgradeStatus::Error { ref message } } => {
            assert_eq!(message, "no node")
        }
        ref other => panic!("{:?}", other),
    }
    assert!(matches!(advance_upgrade(step, UpgradeEvent::Done), UpgradeStep::Finish));
}

#[test]
fn upgrade_without_a_manager_ends_silently() {
    let step = UpgradeStep::StartServer { cache_cleared: true };
    let step = advance_upgrade(step, UpgradeEvent::ServerStarted(None));
    assert!(matches!(step, UpgradeStep::Finish));
    assert!(matches!(advance_upgrade(step, UpgradeEvent::Done), UpgradeStep::Finish));
}

#[test]
fn upgrade_event_out_of_turn_is_ignored() {
    let step = advance_upgrade(to_locate(), UpgradeEvent::Done);
    assert!(matches!(step, UpgradeStep::LocateCache));
}

#[test]
fn reports_as_json() {
    let started = report_object(&UpgradeStatus::Started);
    assert_eq!(started.len(), 1);
    assert_eq!(started.get("state"), Some(&Value::String("started".to_string())));

    let done = report_object(&UpgradeStatus::Done { cache_cleared: true });
    assert_eq!(
        Value::Object(done).to_string(),
        "{\"cacheCleared\":true,\"state\":\"done\"}"
    );
    let done = report_object(&UpgradeStatus::Done { cache_cleared: false });
    assert_eq!(done.get("cacheCleared"), Some(&Value::Bool(false)));

    let error = report_object(&UpgradeStatus::Error { message: "端口".to_string() });
    assert_eq!(error.len(), 2);
    assert_eq!(error.get("state"), Some(&Value::String("error".to_string())));
    assert_eq!(error.get("message"), Some(&Value::String("端口".to_string())));
}
