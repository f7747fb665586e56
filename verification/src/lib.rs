//! Process bridge for a desktop shell that delegates transcription and
//! text-analysis work to an external worker process over a line-oriented
//! JSON protocol on standard input/output.
//!
//! The library holds the verified core: building the single-line JSON
//! command envelope, interpreting the worker's captured output, resolving
//! the interpreter and shared-library search paths, locating the worker
//! script, and the per-call state machine. The surrounding binary performs
//! the actual process I/O and hands the captured bytes back as plain values.

pub mod envelope;
pub mod environment;
pub mod facade;
pub mod jsontext;
pub mod jsonvalue;
pub mod response;
pub mod script;
pub mod session;
pub mod textutil;
