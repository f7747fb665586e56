//! The operation facade: one entry point per supported operation. Each
//! applies the documented defaults for optional parameters, builds the
//! operation's envelope line, and reads the finished child's outcome into
//! the operation's typed result. The spawn itself — the only part Verus
//! cannot see — happens in the surrounding binary, between the request
//! and the interpretation.

use crate::envelope::build_envelope;
use crate::envelope::envelope_model;
use crate::envelope::OpModel;
use crate::envelope::Operation;
use crate::response::interpret_path_model;
use crate::response::interpret_path_response;
use crate::response::result_model;
use crate::response::OpError;
use crate::response::ProcessOutcome;
use vstd::prelude::*;

verus! {

/// The transcribe operation with its defaults applied: mode `local` and
/// the fixed default transcription endpoint, each used only when the
/// caller left the field out.
pub fn transcribe_operation(
    file: String,
    model: String,
    mode: Option<String>,
    whisper_host: Option<String>,
) -> (r: Operation)
    ensures
        r@ == (OpModel::Transcribe {
            file: file@,
            model: model@,
            mode: match mode {
                Some(m) => m@,
                None => "local"@,
            },
            whisper_host: match whisper_host {
                Some(w) => w@,
                None => "http://192.168.68.10:9000"@,
            },
        }),
{
    let m = match mode {
        Some(m) => m,
        None => ("local").to_owned(),
    };
    let w = match whisper_host {
        Some(w) => w,
        None => ("http://192.168.68.10:9000").to_owned(),
    };
    Operation::Transcribe { file, model, mode: m, whisper_host: w }
}

/// The analyze operation with its default applied: the fixed default
/// analysis endpoint when the caller left the host out.
pub fn analyze_operation(file: String, ollama_host: Option<String>) -> (r: Operation)
    ensures
        r@ == (OpModel::Analyze {
            file: file@,
            ollama_host: match ollama_host {
                Some(h) => h@,
                None => "http://192.168.68.10:11434"@,
            },
        }),
{
    let h = match ollama_host {
        Some(h) => h,
        None => ("http://192.168.68.10:11434").to_owned(),
    };
    Operation::Analyze { file, ollama_host: h }
}

/// The recap operation; both fields are required.
pub fn recap_operation(file: String, style: String) -> (r: Operation)
    ensures
        r@ == (OpModel::Recap { file: file@, style: style@ }),
{
    Operation::Recap { file, style }
}

/// The envelope line for a transcribe call, defaults applied.
pub fn transcribe_request(
    file: String,
    model: String,
    mode: Option<String>,
    whisper_host: Option<String>,
) -> (r: String)
    ensures
        r@ == envelope_model(
            OpModel::Transcribe {
                file: file@,
                model: model@,
                mode: match mode {
                    Some(m) => m@,
                    None => "local"@,
                },
                whisper_host: match whisper_host {
                    Some(w) => w@,
                    None => "http://192.168.68.10:9000"@,
                },
            },
        ),
{
    let op = transcribe_operation(file, model, mode, whisper_host);
    build_envelope(&op)
}

/// The envelope line for an analyze call, defaults applied.
pub fn analyze_request(file: String, ollama_host: Option<String>) -> (r: String)
    ensures
        r@ == envelope_model(
            OpModel::Analyze {
                file: file@,
                ollama_host: match ollama_host {
                    Some(h) => h@,
                    None => "http://192.168.68.10:11434"@,
                },
            },
        ),
{
    let op = analyze_operation(file, ollama_host);
    build_envelope(&op)
}

/// The envelope line for a recap call.
pub fn recap_request(file: String, style: String) -> (r: String)
    ensures
        r@ == envelope_model(OpModel::Recap { file: file@, style: style@ }),
{
    let op = recap_operation(file, style);
    build_envelope(&op)
}

/// The envelope line for a whisper health check.
pub fn whisper_health_request(whisper_host: String) -> (r: String)
    ensures
        r@ == envelope_model(OpModel::CheckWhisperHealth { whisper_host: whisper_host@ }),
{
    let op = Operation::CheckWhisperHealth { whisper_host };
    build_envelope(&op)
}

/// The envelope line for an ollama health check.
pub fn ollama_health_request(ollama_host: String) -> (r: String)
    ensures
        r@ == envelope_model(OpModel::CheckOllamaHealth { ollama_host: ollama_host@ }),
{
    let op = Operation::CheckOllamaHealth { ollama_host };
    build_envelope(&op)
}

/// Whether a failure to deliver the envelope to the child's input must
/// abort the call: it must for transcription; every other operation
/// writes best-effort and still waits for the child's reply.
pub fn write_failure_is_fatal(op: &Operation) -> (r: bool)
    ensures
        r == (op@ is Transcribe),
{
    match op {
        Operation::Transcribe { .. } => true,
        _ => false,
    }
}

/// Reads a finished transcribe call: the reply's transcript path.
pub fn interpret_transcribe(outcome: &ProcessOutcome) -> (r: Result<String, OpError>)
    ensures
        result_model(r) == interpret_path_model(outcome@, "transcript_path"@),
{
    interpret_path_response(outcome, "transcript_path")
}

/// Reads a finished analyze call: the reply's analysis path.
pub fn interpret_analyze(outcome: &ProcessOutcome) -> (r: Result<String, OpError>)
    ensures
        result_model(r) == interpret_path_model(outcome@, "analysis_path"@),
{
    interpret_path_response(outcome, "analysis_path")
}

/// Reads a finished recap call: the reply's recap path.
pub fn interpret_recap(outcome: &ProcessOutcome) -> (r: Result<String, OpError>)
    ensures
        result_model(r) == interpret_path_model(outcome@, "recap_path"@),
{
    interpret_path_response(outcome, "recap_path")
}

} // verus!
