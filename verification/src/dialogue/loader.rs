//! The cancellable-operation primitive: one long-running operation raced
//! against a cancellation signal, with a busy indicator shown for the whole
//! wait and guaranteed teardown of the indicator and the watcher on every
//! exit path.
//!
//! Two cancellation sources exist: an in-process key-event poll, and a
//! short-lived companion process that exits when the cancel key is pressed.
//! Launching processes and awaiting futures is the caller's business; this
//! module fixes which side of the race wins, what outcome the caller sees,
//! and which teardown duties are owed, as a function of plain timing values.

use vstd::prelude::*;

verus! {

/// Failure of the cancellation watcher itself, kept distinct from both a
/// cancellation and an operation error.
#[derive(Clone, PartialEq, Eq, Debug)]
pub enum LoaderError {
    /// The companion process exited abnormally.
    ChildProcessError,
    /// The companion process could not be started.
    IoError(String),
    /// The watcher task could not be joined.
    JoinError(String),
}

/// Which cancellation signal guards the operation.
#[derive(Clone, Copy, PartialEq, Eq, Debug)]
pub enum CancelSource {
    /// An in-process key-event poll loop.
    KeyPoll,
    /// A companion process that exits when the cancel key is pressed.
    CompanionProcess,
}

/// Test-double record of the teardown duties of one cancellable run: after
/// the run, no busy indicator remains displayed and no watcher remains live.
pub struct RaceCleanup {
    pub indicator_cleared: bool,
    pub watcher_retired: bool,
}

/// A busy indicator with a label, wrapped around one slow operation.
pub struct Loader<'a> {
    pub prompt: &'a str,
}

impl<'a> Loader<'a> {
    /// A loader with the default label.
    pub fn new() -> (r: Loader<'a>)
        ensures
            r.prompt@ == "Loading"@,
    {
        Loader { prompt: "Loading" }
    }

    /// The same loader with the given label.
    pub fn with_prompt(self, prompt: &'a str) -> (r: Loader<'a>)
        ensures
            r.prompt@ == prompt@,
    {
        Loader { prompt }
    }

    /// Resolves one non-cancellable wait: the indicator is shown, the
    /// operation's result is returned unchanged, and the indicator is
    /// cleared on the way out.
    pub fn resolve<R>(&self, op_result: R, indicator_cleared: &mut bool) -> (r: R)
        ensures
            r == op_result,
            *final(indicator_cleared),
    {
        *indicator_cleared = true;
        op_result
    }

    /// Resolves the race between the operation and the cancellation signal.
    ///
    /// `op_time` and `cancel_time` are the instants (on any common clock) at
    /// which the operation completes and the cancellation signal fires; the
    /// earlier one wins, and a simultaneous arrival is settled for the
    /// operation. `spawn_error` is the failure to start the companion
    /// process, if any — only the companion-process source can fail to
    /// start. `watcher_clean` says whether the watcher that fired had exited
    /// normally; an abnormal exit is a watcher failure, never treated as a
    /// cancellation. Whatever wins, the indicator is cleared and the watcher
    /// is retired before the outcome is returned.
    pub fn resolve_with_cancel<R>(
        &self,
        source: CancelSource,
        spawn_error: Option<String>,
        op_time: u64,
        cancel_time: u64,
        op_result: R,
        watcher_clean: bool,
        cleanup: &mut RaceCleanup,
    ) -> (r: Result<Option<R>, LoaderError>)
        requires
            source is KeyPoll ==> spawn_error is None,
        ensures
            final(cleanup).indicator_cleared,
            final(cleanup).watcher_retired,
            match spawn_error {
                Some(e) => r matches Err(LoaderError::IoError(m)) && m == e,
                None => if op_time <= cancel_time {
                    r matches Ok(Some(v)) && v == op_result
                } else if watcher_clean {
                    r matches Ok(None::<R>)
                } else {
                    r matches Err(LoaderError::ChildProcessError)
                },
            },
    {
        if let Some(e) = spawn_error {
            cleanup.indicator_cleared = true;
            cleanup.watcher_retired = true;
            return Err(LoaderError::IoError(e));
        }
        if op_time <= cancel_time {
            // The operation finished first: kill the watcher, clear the
            // indicator, hand the result through.
            cleanup.watcher_retired = true;
            cleanup.indicator_cleared = true;
            Ok(Some(op_result))
        } else if watcher_clean {
            // The cancel signal fired first and the watcher exited
            // normally: stop waiting. The server-side effect, if any, is
            // not undone here.
            cleanup.watcher_retired = true;
            cleanup.indicator_cleared = true;
            Ok(None)
        } else {
            // The watcher died abnormally: a distinct failure, not a
            // cancellation.
            cleanup.watcher_retired = true;
            cleanup.indicator_cleared = true;
            Err(LoaderError::ChildProcessError)
        }
    }
}

} // verus!
