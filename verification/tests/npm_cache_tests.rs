use harness_desktop::npm_cache::{
    get_npm_cache_dir, npx_place, remove_dsh_from_npx, remove_dsh_from_npx_once, removed_so_far,
    reported_cache, scope_places, CacheSource, CommandOutput, PurgeStep, ScopeOutcome, DEFAULT_CACHE_FOLDER,
    DSH_SCOPE, LOCAL_APP_DATA, NPM_CACHE_COMMAND, NPX_FOLDER, PACKAGES_FOLDER, PURGE_ATTEMPTS,
    PURGE_PAUSE_MILLIS,
};
use std::path::PathBuf;

fn local() -> Option<PathBuf> {
    Some(PathBuf::from("C:\\L"))
}

fn asked(success: bool, stdout: &[u8]) -> Option<CacheSource> {
    get_npm_cache_dir(Some(&CommandOutput { success, stdout: stdout.to_vec() }), local())
}

fn dir(source: Option<CacheSource>) -> String {
    match source {
        Some(CacheSource::Reported(dir)) => dir,
        other => panic!("{:?}", other),
    }
}

fn assert_default(source: Option<CacheSource>) {
    match source {
        Some(CacheSource::Default { place }) => {
            assert_eq!(place.base, PathBuf::from("C:\\L"));
            assert_eq!(place.parts, vec!["npm-cache"]);
        }
        other => panic!("{:?}", other),
    }
}

#[test]
fn names_and_numbers() {
    assert_eq!(NPM_CACHE_COMMAND, "npm config get cache");
    assert_eq!(LOCAL_APP_DATA, "LOCALAPPDATA");
    assert_eq!(DEFAULT_CACHE_FOLDER, "npm-cache");
    assert_eq!(NPX_FOLDER, "_npx");
    assert_eq!(PACKAGES_FOLDER, "node_modules");
    assert_eq!(DSH_SCOPE, "@deepseek-ai");
    assert_eq!(PURGE_ATTEMPTS, 5);
    assert_eq!(PURGE_PAUSE_MILLIS, 400);
}

#[test]
fn reported_directory_is_trimmed() {
    assert_eq!(dir(asked(true, b"C:\\Users\\me\\npm-cache\r\n")), "C:\\Users\\me\\npm-cache");
    assert_eq!(dir(asked(true, "D:\\缓存\n".as_bytes())), "D:\\缓存");
    assert_eq!(dir(asked(true, b" a\xffb ")), "a\u{fffd}b");
    assert_eq!(dir(reported_cache("\tx y\n", None)), "x y");
}

#[test]
fn default_directory_where_npm_reports_none() {
    assert_default(asked(true, b""));
    assert_default(asked(true, b" \r\n"));
    assert_default(asked(false, b"C:\\cache"));
    assert_default(reported_cache("\n", local()));
}

#[test]
fn default_directory_where_npm_cannot_be_asked() {
    assert_default(get_npm_cache_dir(None, local()));
}

#[test]
fn no_directory_where_there_is_no_default() {
    assert!(get_npm_cache_dir(None, None).is_none());
    let failed = CommandOutput { success: false, stdout: Vec::new() };
    assert!(get_npm_cache_dir(Some(&failed), None).is_none());
    let silent = CommandOutput { success: true, stdout: Vec::new() };
    assert!(get_npm_cache_dir(Some(&silent), None).is_none());
    let told = CommandOutput { success: true, stdout: b"D:\\c\n".to_vec() };
    assert_eq!(dir(get_npm_cache_dir(Some(&told), None)), "D:\\c");
}

#[test]
fn scopes_lie_under_the_entries_and_the_directory() {
    let entries = vec![PathBuf::from("n/a1"), PathBuf::from("n/b2")];
    let places = scope_places(entries, PathBuf::from("n"));
    let bases: Vec<PathBuf> = places.iter().map(|place| place.base.clone()).collect();
    assert_eq!(bases, vec![PathBuf::from("n/a1"), PathBuf::from("n/b2"), PathBuf::from("n")]);
    for place in &places {
        assert_eq!(place.parts, vec!["node_modules", "@deepseek-ai"]);
    }
    let places = scope_places(vec![], PathBuf::from("n"));
    assert_eq!(places.len(), 1);
    assert_eq!(places[0].base, PathBuf::from("n"));
}

#[test]
fn npx_directory_lies_in_the_cache() {
    let place = npx_place(PathBuf::from("c"));
    assert_eq!(place.base, PathBuf::from("c"));
    assert_eq!(place.parts, vec!["_npx"]);
}

#[test]
fn removal_is_remembered() {
    let gone = vec![ScopeOutcome::Absent, ScopeOutcome::Removed];
    let held = vec![ScopeOutcome::Failed];
    assert!(removed_so_far(false, &gone));
    assert!(removed_so_far(true, &held));
    assert!(!removed_so_far(false, &held));
}

#[test]
fn one_removal_is_enough() {
    let (a, r, f) = (ScopeOutcome::Absent, ScopeOutcome::Removed, ScopeOutcome::Failed);
    assert!(!remove_dsh_from_npx_once(&vec![]));
    assert!(!remove_dsh_from_npx_once(&vec![a, f]));
    assert!(remove_dsh_from_npx_once(&vec![f, a, r]));
    assert!(remove_dsh_from_npx_once(&vec![r, f]));
}

#[test]
fn removal_is_tried_a_few_times() {
    let nothing = vec![ScopeOutcome::Absent];
    let held = vec![ScopeOutcome::Failed];
    let gone = vec![ScopeOutcome::Removed];
    for attempt in 1u32..5 {
        let retry = PurgeStep::PauseAndRetry { attempt: attempt + 1 };
        assert_eq!(remove_dsh_from_npx(attempt, false, &nothing), retry);
        assert_eq!(remove_dsh_from_npx(attempt, false, &held), retry);
        assert_eq!(remove_dsh_from_npx(attempt, true, &held), retry);
    }
    assert_eq!(remove_dsh_from_npx(5, false, &nothing), PurgeStep::PauseAndGiveUp);
    assert_eq!(remove_dsh_from_npx(5, false, &held), PurgeStep::PauseAndGiveUp);
    assert_eq!(remove_dsh_from_npx(5, true, &held), PurgeStep::Removed);
    for attempt in 1u32..6 {
        assert_eq!(remove_dsh_from_npx(attempt, false, &gone), PurgeStep::Removed);
        assert_eq!(remove_dsh_from_npx(attempt, true, &nothing), PurgeStep::Removed);
    }
}

#[test]
fn held_scope_is_tried_again() {
    let first = vec![ScopeOutcome::Removed, ScopeOutcome::Failed, ScopeOutcome::Absent];
    assert_eq!(
        remove_dsh_from_npx(1, false, &first),
        PurgeStep::PauseAndRetry { attempt: 2 }
    );
    let removed = removed_so_far(false, &first);
    assert!(removed);
    let second = vec![ScopeOutcome::Absent, ScopeOutcome::Removed, ScopeOutcome::Absent];
    assert_eq!(remove_dsh_from_npx(2, removed, &second), PurgeStep::Removed);
    assert_eq!(
        remove_dsh_from_npx(5, false, &first),
        PurgeStep::Removed
    );
}
