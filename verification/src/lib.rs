//! Verified core of a command-line client for a local large-language-model
//! server.
//!
//! The crate covers the logic of the client: encoding request payloads,
//! deframing streamed response chunks into complete JSON records, driving a
//! generation exchange in batch and streaming mode, the model-catalog
//! operations (list, pull, delete), and the in-memory conversation store with
//! its summary rendering.  Network transport, terminal interaction and the
//! on-disk database sit outside this crate and hand plain values in and out.
use vstd::prelude::*;

pub mod codec;
pub mod config;
pub mod ollama;
pub mod store;
pub mod strutil;

verus! {

/// Resolved client configuration: where the server is, which model to query,
/// and the output switches.
pub struct Config {
    /// Server address, e.g. `localhost`.
    pub host: String,
    /// Server port.
    pub port: u16,
    /// Model name sent with generation requests.
    pub model: String,
    /// Print token counts and timing after each answer.
    pub verbose: bool,
    /// Colorize output.
    pub color: bool,
    /// Save the conversation on exit without asking.
    pub save: bool,
}

/// The kind of content handed to the presentation sink; it decides the
/// rendering style.
pub enum ContentType {
    Error,
    Info,
    Answer,
    Exit,
}

/// Severity of a log line.
#[derive(Debug)]
pub enum LogLevel {
    Debug,
    Error,
    Info,
}

/// The per-user files the client keeps.
pub enum ProjFiles {
    Conf,
    Data,
    Log,
}

/// Every failure the client logic can signal.
///
/// `Server` carries a message reported by the inference server itself;
/// `MissingResponse` and `MissingContext` are protocol faults (a completed
/// exchange must carry both fields); the remaining variants are
/// application-level outcomes with distinct messages.
#[derive(Debug, Clone, PartialEq, Eq)]
pub enum ClientError {
    /// The server answered with an `error` field carrying this message.
    Server(String),
    /// A completed generation record carried no `response` field.
    MissingResponse,
    /// The terminal generation record carried no `context` field.
    MissingContext,
    /// The model to delete is not in the server's catalog.
    ModelNotFound,
    /// The server answered a delete request with a non-OK status.
    DeleteRejected,
    /// A pull stream ended without reporting success.
    PullIncomplete,
    /// The conversation store holds no records.
    NoRecords,
    /// The configured port is out of bounds.
    PortOutOfBounds,
    /// A record timestamp that the calendar cannot represent.
    BadTimestamp,
}

/// Which presentation style a replayed chat turn gets, by its role.
pub fn content_type_for_role(role: &str) -> (r: ContentType)
    ensures
        role@ == "user"@ ==> r is Exit,
        role@ == "assistant"@ ==> r is Answer,
        role@ != "user"@ && role@ != "assistant"@ ==> r is Info,
{
    proof {
        reveal_strlit("user");
        reveal_strlit("assistant");
        assert("user"@.len() != "assistant"@.len());
    }
    if strutil::str_eq(role, "user") {
        ContentType::Exit
    } else if strutil::str_eq(role, "assistant") {
        ContentType::Answer
    } else {
        ContentType::Info
    }
}

} // verus!
