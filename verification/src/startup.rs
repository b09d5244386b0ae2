//! Best-effort microphone priming at process start.
//!
//! A process holds one `RunOnceFlag`. The first `init_microphone_permission`
//! call on it hands back the one background task to schedule — sleep for
//! the settle delay, then run the microphone ensure and discard the
//! verdict — and every later call hands back nothing. The embedding
//! application serialises the calls (the flag is the only shared state
//! in the subsystem, guarded there by its one lock or compare-and-set),
//! spawns the detached task, and never blocks its caller on it.

use vstd::prelude::*;

verus! {

/// How long the scheduled task lets the rest of startup settle before
/// it runs the microphone ensure, in milliseconds.
pub const STARTUP_SETTLE_DELAY_MS: u64 = 500;

/// The process-wide run-once guard: starts clear, is set by the first
/// `try_begin`, and never clears again for the life of the process.
pub struct RunOnceFlag {
    run: bool,
}

impl RunOnceFlag {
    /// Whether the guarded work has already been claimed.
    pub closed spec fn has_run(&self) -> bool {
        self.run
    }

    /// A fresh flag: nothing has run yet.
    pub fn new() -> (r: RunOnceFlag)
        ensures
            !r.has_run(),
    {
        RunOnceFlag { run: false }
    }

    /// Claim the guarded work. Returns the go-ahead exactly when the
    /// flag was still clear, and leaves it set either way.
    pub fn try_begin(&mut self) -> (r: bool)
        ensures
            final(self).has_run(),
            r == !old(self).has_run(),
    {
        let first = !self.run;
        self.run = true;
        first
    }
}

/// The one background task the first initialisation call schedules:
/// wait out the settle delay, then run the microphone ensure and only
/// log the verdict.
#[derive(Clone, Copy, PartialEq, Eq, Structural, Debug)]
pub struct StartupTask {
    /// Milliseconds the task sleeps before the ensure runs.
    pub settle_delay_ms: u64,
}

/// Prime the microphone permission on application start.
///
/// The first call on the process's flag returns the background task to
/// schedule, with the fixed settle delay; every later call returns
/// nothing and has no effect beyond the (already set) flag. The caller
/// never waits on the task.
pub fn init_microphone_permission(flag: &mut RunOnceFlag) -> (r: Option<StartupTask>)
    ensures
        final(flag).has_run(),
        old(flag).has_run() ==> r is None,
        !old(flag).has_run() ==> r == Some(
            StartupTask { settle_delay_ms: STARTUP_SETTLE_DELAY_MS },
        ),
{
    if flag.try_begin() {
        Some(StartupTask { settle_delay_ms: STARTUP_SETTLE_DELAY_MS })
    } else {
        None
    }
}

/// How many of a sequence of go-ahead results granted the go-ahead.
pub open spec fn go_aheads(results: Seq<bool>) -> nat
    decreases results.len(),
{
    if results.len() == 0 {
        0
    } else {
        go_aheads(results.drop_last()) + if results.last() {
            1nat
        } else {
            0nat
        }
    }
}

/// A serialised history of `try_begin` calls on one flag: `states[i]`
/// is the flag before the `i`-th call, each call returns the negation
/// of the flag it found and leaves the flag set.
pub open spec fn is_try_begin_history(states: Seq<bool>, results: Seq<bool>) -> bool {
    &&& states.len() == results.len() + 1
    &&& forall|i: int| 0 <= i < results.len() ==> #[trigger] results[i] == !states[i]
    &&& forall|i: int| 1 <= i < states.len() ==> #[trigger] states[i] == true
}

/// Law: however many initialisation calls race on one fresh flag, once
/// their claims on it are serialised, exactly one call receives the
/// go-ahead — so exactly one background task is ever scheduled.
pub proof fn lemma_init_schedules_exactly_once(states: Seq<bool>, results: Seq<bool>)
    requires
        is_try_begin_history(states, results),
        states[0] == false,
        results.len() >= 1,
    ensures
        go_aheads(results) == 1,
    decreases results.len(),
{
    if results.len() == 1 {
        assert(results.last() == results[0]);
        assert(go_aheads(results.drop_last()) == 0);
    } else {
        let n = results.len() - 1;
        lemma_init_schedules_exactly_once(states.drop_last(), results.drop_last());
        assert(states[n] == true);
        assert(!results.last());
    }
}

} // verus!
