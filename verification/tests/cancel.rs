//! The cancellable-operation primitive: which side of the race wins is
//! decided by the completion instants alone, and the indicator and watcher
//! are retired on every exit path.

use moonbois_cli::dialogue::loader::CancelSource;
use moonbois_cli::dialogue::loader::Loader;
use moonbois_cli::dialogue::loader::LoaderError;
use moonbois_cli::dialogue::loader::RaceCleanup;

fn fresh_cleanup() -> RaceCleanup {
    RaceCleanup { indicator_cleared: false, watcher_retired: false }
}

#[test]
fn operation_first_completes_and_kills_watcher() {
    let loader = Loader::new().with_prompt("Snipe pending");
    let mut cleanup = fresh_cleanup();
    let r = loader.resolve_with_cancel(
        CancelSource::CompanionProcess,
        None,
        10,
        20,
        "value",
        true,
        &mut cleanup,
    );
    assert!(matches!(r, Ok(Some("value"))));
    assert!(cleanup.indicator_cleared);
    assert!(cleanup.watcher_retired);
}

#[test]
fn cancel_first_stops_waiting() {
    let loader = Loader::new();
    let mut cleanup = fresh_cleanup();
    let r = loader.resolve_with_cancel(
        CancelSource::CompanionProcess,
        None,
        20,
        10,
        "value",
        true,
        &mut cleanup,
    );
    assert!(matches!(r, Ok(None)));
    assert!(cleanup.indicator_cleared);
    assert!(cleanup.watcher_retired);
}

#[test]
fn simultaneous_race_is_settled_for_the_operation() {
    let loader = Loader::new();
    let mut cleanup = fresh_cleanup();
    let r = loader.resolve_with_cancel(
        CancelSource::KeyPoll,
        None,
        15,
        15,
        7u64,
        true,
        &mut cleanup,
    );
    assert!(matches!(r, Ok(Some(7))));
    assert!(cleanup.indicator_cleared);
    assert!(cleanup.watcher_retired);
}

#[test]
fn abnormal_watcher_exit_is_a_distinct_error_not_a_cancellation() {
    let loader = Loader::new();
    let mut cleanup = fresh_cleanup();
    let r = loader.resolve_with_cancel(
        CancelSource::CompanionProcess,
        None,
        20,
        10,
        "value",
        false,
        &mut cleanup,
    );
    assert!(matches!(r, Err(LoaderError::ChildProcessError)));
    assert!(cleanup.indicator_cleared);
    assert!(cleanup.watcher_retired);
}

#[test]
fn watcher_spawn_failure_is_reported() {
    let loader = Loader::new();
    let mut cleanup = fresh_cleanup();
    let r = loader.resolve_with_cancel(
        CancelSource::CompanionProcess,
        Some("no such executable".to_string()),
        10,
        20,
        "value",
        true,
        &mut cleanup,
    );
    match r {
        Err(LoaderError::IoError(m)) => assert_eq!(m, "no such executable"),
        _ => panic!("spawn failure must surface as an io error"),
    }
    assert!(cleanup.indicator_cleared);
    assert!(cleanup.watcher_retired);
}

#[test]
fn plain_wait_returns_the_result_and_clears_the_indicator() {
    let loader = Loader::new().with_prompt("logging in");
    let mut cleared = false;
    let r = loader.resolve(42u32, &mut cleared);
    assert_eq!(r, 42);
    assert!(cleared);
}

#[test]
fn loader_prompt_defaults_to_loading() {
    let loader = Loader::new();
    assert_eq!(loader.prompt, "Loading");
    let loader = loader.with_prompt("deleting");
    assert_eq!(loader.prompt, "deleting");
}
