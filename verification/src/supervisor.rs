//! The input-listener supervisor: a bounded-retry/backoff state machine
//! that restarts the platform listener after failures, cools down after a
//! streak of errors, and disables itself for good after a streak of
//! internal panics.

use vstd::prelude::*;

verus! {

/// Failures in a row before the policy changes course.
pub const MAX_ATTEMPTS: u32 = 5;

/// Backoff per failed attempt, in milliseconds.
pub const ERROR_BACKOFF_STEP_MILLIS: u64 = 500;

/// Cooldown after a full streak of errors, in milliseconds.
pub const ERROR_COOLDOWN_MILLIS: u64 = 10000;

/// Pause after a caught panic, in milliseconds.
pub const PANIC_BACKOFF_MILLIS: u64 = 2000;

#[derive(Clone, Copy, Debug, PartialEq, Eq, Structural)]
pub enum SupervisorState {
    /// Not started, or wound down after a clean exit with the flag cleared.
    Idle,
    /// The platform listener is running; `attempts` failures so far in the
    /// current streak.
    Listening { attempts: u32 },
    /// Sleeping for `millis` before listening again with `attempts` on the
    /// counter.
    BackingOff { attempts: u32, millis: u64 },
    /// Panicked too many times in a row: the listener never restarts for
    /// the rest of the process.
    Disabled,
}

/// How one run of the platform listener ended.
#[derive(Clone, Copy, Debug, PartialEq, Eq, Structural)]
pub enum ListenerOutcome {
    /// Returned normally.
    Clean,
    /// Returned an error.
    Failed,
    /// Raised a panic that the supervisor caught.
    Panicked,
}

#[derive(Clone, Copy, Debug, PartialEq, Eq, Structural)]
pub enum SupervisorEvent {
    /// The guarded first start request.
    Start,
    /// The running listener ended.
    Exited(ListenerOutcome),
    /// A backoff or cooldown sleep finished.
    BackoffElapsed,
}

/// The whole retry policy. `running` is the lifecycle flag at the moment
/// the event is handled.
pub open spec fn spec_supervisor_step(
    state: SupervisorState,
    event: SupervisorEvent,
    running: bool,
) -> SupervisorState {
    match (state, event) {
        (SupervisorState::Idle, SupervisorEvent::Start) => SupervisorState::Listening {
            attempts: 0,
        },
        (
            SupervisorState::Listening { attempts },
            SupervisorEvent::Exited(ListenerOutcome::Clean),
        ) => if running {
            SupervisorState::Listening { attempts: 0 }
        } else {
            SupervisorState::Idle
        },
        (
            SupervisorState::Listening { attempts },
            SupervisorEvent::Exited(ListenerOutcome::Failed),
        ) => if attempts + 1 < MAX_ATTEMPTS {
            SupervisorState::BackingOff {
                attempts: (attempts + 1) as u32,
                millis: (ERROR_BACKOFF_STEP_MILLIS * ((attempts + 1) as u64)) as u64,
            }
        } else {
            SupervisorState::BackingOff { attempts: 0, millis: ERROR_COOLDOWN_MILLIS }
        },
        (
            SupervisorState::Listening { attempts },
            SupervisorEvent::Exited(ListenerOutcome::Panicked),
        ) => if attempts + 1 < MAX_ATTEMPTS {
            SupervisorState::BackingOff {
                attempts: (attempts + 1) as u32,
                millis: PANIC_BACKOFF_MILLIS,
            }
        } else {
            SupervisorState::Disabled
        },
        (SupervisorState::BackingOff { attempts, millis: _ }, SupervisorEvent::BackoffElapsed) => {
            SupervisorState::Listening { attempts }
        },
        (SupervisorState::Disabled, _) => SupervisorState::Disabled,
        _ => state,
    }
}

/// Every reachable state keeps its failure counter under the bound.
pub open spec fn state_wf(state: SupervisorState) -> bool {
    match state {
        SupervisorState::Idle => true,
        SupervisorState::Listening { attempts } => attempts < MAX_ATTEMPTS,
        SupervisorState::BackingOff { attempts, millis: _ } => attempts < MAX_ATTEMPTS,
        SupervisorState::Disabled => true,
    }
}

pub fn supervisor_step(state: SupervisorState, event: SupervisorEvent, running: bool) -> (next:
    SupervisorState)
    requires
        state_wf(state),
    ensures
        next == spec_supervisor_step(state, event, running),
        state_wf(next),
{
    match (state, event) {
        (SupervisorState::Idle, SupervisorEvent::Start) => SupervisorState::Listening {
            attempts: 0,
        },
        (
            SupervisorState::Listening { attempts },
            SupervisorEvent::Exited(ListenerOutcome::Clean),
        ) => if running {
            SupervisorState::Listening { attempts: 0 }
        } else {
            SupervisorState::Idle
        },
        (
            SupervisorState::Listening { attempts },
            SupervisorEvent::Exited(ListenerOutcome::Failed),
        ) => if attempts + 1 < MAX_ATTEMPTS {
            SupervisorState::BackingOff {
                attempts: attempts + 1,
                millis: ERROR_BACKOFF_STEP_MILLIS * ((attempts + 1) as u64),
            }
        } else {
            SupervisorState::BackingOff { attempts: 0, millis: ERROR_COOLDOWN_MILLIS }
        },
        (
            SupervisorState::Listening { attempts },
            SupervisorEvent::Exited(ListenerOutcome::Panicked),
        ) => if attempts + 1 < MAX_ATTEMPTS {
            SupervisorState::BackingOff { attempts: attempts + 1, millis: PANIC_BACKOFF_MILLIS }
        } else {
            SupervisorState::Disabled
        },
        (SupervisorState::BackingOff { attempts, millis: _ }, SupervisorEvent::BackoffElapsed) => {
            SupervisorState::Listening { attempts }
        },
        (SupervisorState::Disabled, _) => SupervisorState::Disabled,
        _ => state,
    }
}

/// The retry bound is preserved by every transition: no reachable state
/// ever carries a counter at or past the maximum.
pub proof fn lemma_step_preserves_wf(
    state: SupervisorState,
    event: SupervisorEvent,
    running: bool,
)
    requires
        state_wf(state),
    ensures
        state_wf(spec_supervisor_step(state, event, running)),
{
}

/// Once disabled, the supervisor never leaves that state, whatever arrives:
/// the listener does not restart for the rest of the process.
pub proof fn lemma_disabled_is_terminal(event: SupervisorEvent, running: bool)
    ensures
        spec_supervisor_step(SupervisorState::Disabled, event, running)
            == SupervisorState::Disabled,
{
}

/// A fresh listener that fails five times in a row, sleeping out each
/// backoff in between, walks through growing backoffs, reaches the long
/// cooldown with its counter reset, and then resumes listening.
pub proof fn lemma_five_errors_reach_cooldown(running: bool)
    ensures
        ({
            let s0 = SupervisorState::Listening { attempts: 0 };
            let fail = SupervisorEvent::Exited(ListenerOutcome::Failed);
            let wake = SupervisorEvent::BackoffElapsed;
            let s1 = spec_supervisor_step(s0, fail, running);
            let s2 = spec_supervisor_step(s1, wake, running);
            let s3 = spec_supervisor_step(s2, fail, running);
            let s4 = spec_supervisor_step(s3, wake, running);
            let s5 = spec_supervisor_step(s4, fail, running);
            let s6 = spec_supervisor_step(s5, wake, running);
            let s7 = spec_supervisor_step(s6, fail, running);
            let s8 = spec_supervisor_step(s7, wake, running);
            let s9 = spec_supervisor_step(s8, fail, running);
            let s10 = spec_supervisor_step(s9, wake, running);
            &&& s1 == (SupervisorState::BackingOff { attempts: 1u32, millis: 500u64 })
            &&& s3 == (SupervisorState::BackingOff { attempts: 2u32, millis: 1000u64 })
            &&& s5 == (SupervisorState::BackingOff { attempts: 3u32, millis: 1500u64 })
            &&& s7 == (SupervisorState::BackingOff { attempts: 4u32, millis: 2000u64 })
            &&& s9 == (SupervisorState::BackingOff { attempts: 0u32, millis: 10000u64 })
            &&& s10 == (SupervisorState::Listening { attempts: 0u32 })
        }),
{
}

/// A fresh listener that panics five times in a row, sleeping out each
/// pause in between, ends up disabled for good.
pub proof fn lemma_five_panics_disable(running: bool)
    ensures
        ({
            let s0 = SupervisorState::Listening { attempts: 0 };
            let panicked = SupervisorEvent::Exited(ListenerOutcome::Panicked);
            let wake = SupervisorEvent::BackoffElapsed;
            let s1 = spec_supervisor_step(s0, panicked, running);
            let s2 = spec_supervisor_step(s1, wake, running);
            let s3 = spec_supervisor_step(s2, panicked, running);
            let s4 = spec_supervisor_step(s3, wake, running);
            let s5 = spec_supervisor_step(s4, panicked, running);
            let s6 = spec_supervisor_step(s5, wake, running);
            let s7 = spec_supervisor_step(s6, panicked, running);
            let s8 = spec_supervisor_step(s7, wake, running);
            let s9 = spec_supervisor_step(s8, panicked, running);
            &&& s7 == (SupervisorState::BackingOff { attempts: 4u32, millis: 2000u64 })
            &&& s9 == SupervisorState::Disabled
        }),
{
}

/// A clean exit always resets the failure streak: the next listening state
/// starts the counter over (or the loop winds down when the flag is clear).
pub proof fn lemma_clean_exit_resets_counter(attempts: u32, running: bool)
    requires
        attempts < MAX_ATTEMPTS,
    ensures
        spec_supervisor_step(
            SupervisorState::Listening { attempts },
            SupervisorEvent::Exited(ListenerOutcome::Clean),
            running,
        ) == (if running {
            SupervisorState::Listening { attempts: 0u32 }
        } else {
            SupervisorState::Idle
        }),
{
}

} // verus!
