//! The per-call state machine. Each operation call walks the same fixed
//! sequence — resolve the environment, locate the script, build the
//! envelope, spawn, write, wait, parse, interpret — with no retry and no
//! way back: every step moves strictly forward, and the two terminal
//! states absorb everything. The surrounding binary drives one machine
//! per call; the transition rule itself is decided here.

use vstd::prelude::*;

verus! {

/// Where one call stands.
#[derive(Debug, Clone, Copy, PartialEq, Eq, Structural)]
pub enum CallState {
    Idle,
    EnvironmentResolved,
    ScriptLocated,
    EnvelopeBuilt,
    ChildSpawned,
    InputWritten,
    ChildExited,
    ResponseParsed,
    Succeeded,
    Failed,
}

/// What just happened to the call. The payloads say whether the step
/// succeeded; `InputWrite`'s second flag says whether a lost write is
/// fatal for this operation.
#[derive(Debug, Clone, Copy, PartialEq, Eq, Structural)]
pub enum CallEvent {
    EnvironmentReady,
    ScriptLookup(bool),
    EnvelopeReady,
    SpawnAttempt(bool),
    InputWrite(bool, bool),
    ChildWait(bool),
    OutputRead,
    Interpretation(bool),
}

/// How far along a state is; the two terminal states rank highest.
pub open spec fn rank(s: CallState) -> nat {
    match s {
        CallState::Idle => 0,
        CallState::EnvironmentResolved => 1,
        CallState::ScriptLocated => 2,
        CallState::EnvelopeBuilt => 3,
        CallState::ChildSpawned => 4,
        CallState::InputWritten => 5,
        CallState::ChildExited => 6,
        CallState::ResponseParsed => 7,
        CallState::Succeeded => 8,
        CallState::Failed => 8,
    }
}

/// Whether the call is over.
pub open spec fn is_terminal(s: CallState) -> bool {
    s == CallState::Succeeded || s == CallState::Failed
}

/// The transition rule: each state accepts exactly the event of its own
/// step; a failed step — and any event a state does not expect — ends
/// the call in `Failed`, a lost write only when it was fatal. Terminal
/// states absorb every event.
pub open spec fn step_model(s: CallState, e: CallEvent) -> CallState {
    match (s, e) {
        (CallState::Idle, CallEvent::EnvironmentReady) => CallState::EnvironmentResolved,
        (CallState::EnvironmentResolved, CallEvent::ScriptLookup(found)) => if found {
            CallState::ScriptLocated
        } else {
            CallState::Failed
        },
        (CallState::ScriptLocated, CallEvent::EnvelopeReady) => CallState::EnvelopeBuilt,
        (CallState::EnvelopeBuilt, CallEvent::SpawnAttempt(ok)) => if ok {
            CallState::ChildSpawned
        } else {
            CallState::Failed
        },
        (CallState::ChildSpawned, CallEvent::InputWrite(ok, fatal)) => if ok || !fatal {
            CallState::InputWritten
        } else {
            CallState::Failed
        },
        (CallState::InputWritten, CallEvent::ChildWait(ok)) => if ok {
            CallState::ChildExited
        } else {
            CallState::Failed
        },
        (CallState::ChildExited, CallEvent::OutputRead) => CallState::ResponseParsed,
        (CallState::ResponseParsed, CallEvent::Interpretation(ok)) => if ok {
            CallState::Succeeded
        } else {
            CallState::Failed
        },
        (CallState::Succeeded, _) => CallState::Succeeded,
        (CallState::Failed, _) => CallState::Failed,
        (_, _) => CallState::Failed,
    }
}

/// Advances the call by one event, exactly as `step_model` says.
pub fn advance(s: CallState, e: CallEvent) -> (r: CallState)
    ensures
        r == step_model(s, e),
{
    match (s, e) {
        (CallState::Idle, CallEvent::EnvironmentReady) => CallState::EnvironmentResolved,
        (CallState::EnvironmentResolved, CallEvent::ScriptLookup(found)) => if found {
            CallState::ScriptLocated
        } else {
            CallState::Failed
        },
        (CallState::ScriptLocated, CallEvent::EnvelopeReady) => CallState::EnvelopeBuilt,
        (CallState::EnvelopeBuilt, CallEvent::SpawnAttempt(ok)) => if ok {
            CallState::ChildSpawned
        } else {
            CallState::Failed
        },
        (CallState::ChildSpawned, CallEvent::InputWrite(ok, fatal)) => if ok || !fatal {
            CallState::InputWritten
        } else {
            CallState::Failed
        },
        (CallState::InputWritten, CallEvent::ChildWait(ok)) => if ok {
            CallState::ChildExited
        } else {
            CallState::Failed
        },
        (CallState::ChildExited, CallEvent::OutputRead) => CallState::ResponseParsed,
        (CallState::ResponseParsed, CallEvent::Interpretation(ok)) => if ok {
            CallState::Succeeded
        } else {
            CallState::Failed
        },
        (CallState::Succeeded, _) => CallState::Succeeded,
        (CallState::Failed, _) => CallState::Failed,
        (_, _) => CallState::Failed,
    }
}

/// No transition re-enters an earlier state: every event moves a live
/// call strictly forward.
pub proof fn lemma_no_reentry(s: CallState, e: CallEvent)
    requires
        !is_terminal(s),
    ensures
        rank(step_model(s, e)) > rank(s),
{
}

/// Once a call has ended, nothing moves it again.
pub proof fn lemma_terminal_absorbs(s: CallState, e: CallEvent)
    requires
        is_terminal(s),
    ensures
        step_model(s, e) == s,
{
}

} // verus!
