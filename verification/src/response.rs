//! Interpreting what the worker process left behind: its exit status and
//! its captured output and error streams. Only the last non-empty line of
//! standard output is treated as the reply envelope; everything before it
//! is diagnostic noise. Standard error is never parsed, only carried into
//! error messages.

use crate::jsonvalue::data_or_whole;
use crate::jsonvalue::data_field_of;
use crate::jsonvalue::error_of;
use crate::jsonvalue::json_parses;
use crate::jsonvalue::parse_value;
use crate::jsonvalue::response_data_field;
use crate::jsonvalue::response_error;
use crate::jsonvalue::response_status;
use crate::jsonvalue::status_of;
use crate::textutil::concat_str;
use crate::textutil::find_last_nonempty_line;
use crate::textutil::i32_text;
use crate::textutil::int_text;
use crate::textutil::last_nonempty_line;
use crate::textutil::trim_model;
use crate::textutil::trim_spaces;
use vstd::prelude::*;

verus! {

/// Everything the bridge captures from one finished child process:
/// whether it exited successfully, its exit code when one is known
/// (none when a signal ended it), and its full standard-output and
/// standard-error text.
pub struct ProcessOutcome {
    pub exit_ok: bool,
    pub exit_code: Option<i32>,
    pub stdout: String,
    pub stderr: String,
}

/// The mathematical model of a process outcome.
pub struct OutcomeModel {
    pub exit_ok: bool,
    pub exit_code: Option<int>,
    pub stdout: Seq<char>,
    pub stderr: Seq<char>,
}

impl View for ProcessOutcome {
    type V = OutcomeModel;

    open spec fn view(&self) -> OutcomeModel {
        OutcomeModel {
            exit_ok: self.exit_ok,
            exit_code: match self.exit_code {
                Some(i) => Some(i as int),
                None => None,
            },
            stdout: self.stdout@,
            stderr: self.stderr@,
        }
    }
}

/// Why a call failed, one variant per failure class: the child could not
/// be spawned, its input could not be written, it exited unsuccessfully,
/// its output lacked the expected shape, or the worker itself reported
/// an error.
#[derive(Debug, PartialEq, Eq)]
pub enum OpError {
    Spawn(String),
    Write(String),
    ChildFailure(String),
    UnexpectedOutput(String),
    Domain(String),
    ScriptNotFound,
}

/// The mathematical model of a failure.
pub enum ErrModel {
    Spawn(Seq<char>),
    Write(Seq<char>),
    ChildFailure(Seq<char>),
    UnexpectedOutput(Seq<char>),
    Domain(Seq<char>),
    ScriptNotFound,
}

impl View for OpError {
    type V = ErrModel;

    open spec fn view(&self) -> ErrModel {
        match self {
            OpError::Spawn(s) => ErrModel::Spawn(s@),
            OpError::Write(s) => ErrModel::Write(s@),
            OpError::ChildFailure(s) => ErrModel::ChildFailure(s@),
            OpError::UnexpectedOutput(s) => ErrModel::UnexpectedOutput(s@),
            OpError::Domain(s) => ErrModel::Domain(s@),
            OpError::ScriptNotFound => ErrModel::ScriptNotFound,
        }
    }
}

/// The human-readable text of a failure. A worker-reported error is
/// handed on unchanged; every other variant carries a fixed prefix.
pub open spec fn message_model(m: ErrModel) -> Seq<char> {
    match m {
        ErrModel::Spawn(s) => "Failed to start Python: "@ + s,
        ErrModel::Write(s) => "Failed to write to Python stdin: "@ + s,
        ErrModel::ChildFailure(s) => "Python error: "@ + s,
        ErrModel::UnexpectedOutput(s) => "Unexpected Python output: "@ + s,
        ErrModel::Domain(s) => s,
        ErrModel::ScriptNotFound => "Python script not found"@,
    }
}

impl OpError {
    /// The human-readable text of the failure, as `message_model` says.
    pub fn message(&self) -> (r: String)
        ensures
            r@ == message_model(self@),
    {
        match self {
            OpError::Spawn(s) => concat_str("Failed to start Python: ", s.as_str()),
            OpError::Write(s) => concat_str("Failed to write to Python stdin: ", s.as_str()),
            OpError::ChildFailure(s) => concat_str("Python error: ", s.as_str()),
            OpError::UnexpectedOutput(s) => concat_str("Unexpected Python output: ", s.as_str()),
            OpError::Domain(s) => s.clone(),
            OpError::ScriptNotFound => ("Python script not found").to_owned(),
        }
    }
}

/// A string-returning call's result, over views.
pub open spec fn result_model(r: Result<String, OpError>) -> Result<Seq<char>, ErrModel> {
    match r {
        Ok(s) => Ok(s@),
        Err(e) => Err(e@),
    }
}

/// The text a failed exit is reported with: the captured standard-error
/// text, or the exit code when standard error is empty.
pub open spec fn child_failure_model(m: OutcomeModel) -> Seq<char> {
    if m.stderr.len() > 0 {
        m.stderr
    } else {
        match m.exit_code {
            Some(i) => "exit code "@ + int_text(i),
            None => "terminated by signal"@,
        }
    }
}

fn child_failure_text(outcome: &ProcessOutcome) -> (r: String)
    ensures
        r@ == child_failure_model(outcome@),
{
    if !outcome.stderr.as_str().is_empty() {
        outcome.stderr.clone()
    } else {
        match outcome.exit_code {
            Some(code) => {
                let d = i32_text(code);
                concat_str("exit code ", d.as_str())
            },
            None => ("terminated by signal").to_owned(),
        }
    }
}

/// How an outcome is read for the operations whose reply carries one
/// path under `data`:
/// a failed exit reports the standard-error text (or the exit code);
/// with no output at all the call fails carrying the `(empty)` marker;
/// a `success` envelope yields the path under `field`, or fails on the
/// whole captured output when that field is missing; an `error` envelope
/// yields the worker's own error string; anything else fails on the
/// offending line.
pub open spec fn interpret_path_model(m: OutcomeModel, field: Seq<char>) -> Result<
    Seq<char>,
    ErrModel,
> {
    if !m.exit_ok {
        Err(ErrModel::ChildFailure(child_failure_model(m)))
    } else {
        match last_nonempty_line(m.stdout) {
            None => Err(ErrModel::UnexpectedOutput("(empty)"@)),
            Some(line) => {
                if status_of(line) == Some("success"@) {
                    match data_field_of(line, field) {
                        Some(p) => Ok(p),
                        None => Err(ErrModel::UnexpectedOutput(m.stdout)),
                    }
                } else if status_of(line) == Some("error"@) {
                    match error_of(line) {
                        Some(e) => Err(ErrModel::Domain(e)),
                        None => Err(ErrModel::UnexpectedOutput(m.stdout)),
                    }
                } else {
                    Err(ErrModel::UnexpectedOutput(line))
                }
            },
        }
    }
}

fn string_eq_lit(a: &String, lit: &str) -> (r: bool)
    ensures
        r == (a@ == lit@),
{
    let l = lit.to_owned();
    a.eq(&l)
}

/// Reads the outcome of a path-returning operation, exactly as
/// `interpret_path_model` describes.
pub fn interpret_path_response(outcome: &ProcessOutcome, field: &str) -> (r: Result<
    String,
    OpError,
>)
    ensures
        result_model(r) == interpret_path_model(outcome@, field@),
{
    if !outcome.exit_ok {
        return Err(OpError::ChildFailure(child_failure_text(outcome)));
    }
    match find_last_nonempty_line(outcome.stdout.as_str()) {
        None => Err(OpError::UnexpectedOutput(("(empty)").to_owned())),
        Some(line) => {
            match response_status(line.as_str()) {
                Some(st) => {
                    if string_eq_lit(&st, "success") {
                        match response_data_field(line.as_str(), field) {
                            Some(p) => Ok(p),
                            None => Err(OpError::UnexpectedOutput(outcome.stdout.clone())),
                        }
                    } else if string_eq_lit(&st, "error") {
                        match response_error(line.as_str()) {
                            Some(e) => Err(OpError::Domain(e)),
                            None => Err(OpError::UnexpectedOutput(outcome.stdout.clone())),
                        }
                    } else {
                        Err(OpError::UnexpectedOutput(line))
                    }
                },
                None => Err(OpError::UnexpectedOutput(line)),
            }
        },
    }
}

/// How a health-check outcome is read; the same as the path-returning
/// operations, except that a `success` envelope passes its payload
/// through opaquely, so success is recorded here as the unit value.
pub open spec fn interpret_health_model(m: OutcomeModel) -> Result<(), ErrModel> {
    if !m.exit_ok {
        Err(ErrModel::ChildFailure(child_failure_model(m)))
    } else {
        match last_nonempty_line(m.stdout) {
            None => Err(ErrModel::UnexpectedOutput("(empty)"@)),
            Some(line) => {
                if status_of(line) == Some("success"@) {
                    Ok(())
                } else if status_of(line) == Some("error"@) {
                    match error_of(line) {
                        Some(e) => Err(ErrModel::Domain(e)),
                        None => Err(ErrModel::UnexpectedOutput(m.stdout)),
                    }
                } else {
                    Err(ErrModel::UnexpectedOutput(line))
                }
            },
        }
    }
}

/// Reads the outcome of a health-check operation. On success the reply's
/// `data` member (or the whole reply envelope when `data` is absent) is
/// handed through verbatim.
pub fn interpret_health_response(outcome: &ProcessOutcome) -> (r: Result<
    serde_json::Value,
    OpError,
>)
    ensures
        match r {
            Ok(_) => interpret_health_model(outcome@) == Ok::<(), ErrModel>(()),
            Err(e) => interpret_health_model(outcome@) == Err::<(), ErrModel>(e@),
        },
{
    if !outcome.exit_ok {
        return Err(OpError::ChildFailure(child_failure_text(outcome)));
    }
    match find_last_nonempty_line(outcome.stdout.as_str()) {
        None => Err(OpError::UnexpectedOutput(("(empty)").to_owned())),
        Some(line) => {
            match response_status(line.as_str()) {
                Some(st) => {
                    if string_eq_lit(&st, "success") {
                        match parse_value(line.as_str()) {
                            Some(v) => Ok(data_or_whole(&v)),
                            None => {
                                proof {
                                    assert(json_parses(line@));
                                }
                                Err(OpError::UnexpectedOutput(line))
                            },
                        }
                    } else if string_eq_lit(&st, "error") {
                        match response_error(line.as_str()) {
                            Some(e) => Err(OpError::Domain(e)),
                            None => Err(OpError::UnexpectedOutput(outcome.stdout.clone())),
                        }
                    } else {
                        Err(OpError::UnexpectedOutput(line))
                    }
                },
                None => Err(OpError::UnexpectedOutput(line)),
            }
        },
    }
}

/// How the interpreter probe's outcome is read: a successful exit
/// reports the probe's trimmed output behind a fixed greeting, a failed
/// one reports the standard-error text (or the exit code).
pub open spec fn probe_model(m: OutcomeModel) -> Result<Seq<char>, ErrModel> {
    if m.exit_ok {
        Ok("Python bridge is working! "@ + trim_model(m.stdout))
    } else {
        Err(ErrModel::ChildFailure(child_failure_model(m)))
    }
}

/// Reads the outcome of the interpreter probe, exactly as `probe_model`
/// describes.
pub fn interpret_probe(outcome: &ProcessOutcome) -> (r: Result<String, OpError>)
    ensures
        result_model(r) == probe_model(outcome@),
{
    if outcome.exit_ok {
        let t = trim_spaces(outcome.stdout.as_str());
        Ok(concat_str("Python bridge is working! ", t.as_str()))
    } else {
        Err(OpError::ChildFailure(child_failure_text(outcome)))
    }
}

} // verus!
