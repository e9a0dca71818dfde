//! The message surfaces of the coordinator: what clients send in, what the
//! query system and the response emitter receive, and what they post back.

use vstd::prelude::*;

verus! {

/// Caller-assigned identifier of one in-flight task, unique among
/// concurrently live tasks.
pub type TaskId = usize;

/// Relies on `url::Url` as an opaque value only: the coordinator stores and
/// forwards locations, it never looks inside them.
#[verifier::external_type_specification]
#[verifier::external_body]
pub struct ExUrl(url::Url);

/// Relies on `languageserver_types::Position` as an opaque value only,
/// carried through fetch requests untouched.
#[verifier::external_type_specification]
#[verifier::external_body]
pub struct ExPosition(languageserver_types::Position);

/// Envelope of every message delivered to a worker's mailbox: either the
/// shutdown sentinel or ordinary traffic, so that stopping a worker shares
/// the mailbox with its normal work.
#[derive(Debug, PartialEq)]
pub enum MsgFromManager<T> {
    Shutdown,
    Message(T),
}

/// A client request as it enters the coordinator.
#[derive(Debug, PartialEq)]
pub enum LspRequest {
    TypeForPos(TaskId, url::Url, languageserver_types::Position),
    OpenFile(url::Url, String),
    Initialize(TaskId),
}

/// A response on its way out to the client-facing worker.
#[derive(Debug, PartialEq)]
pub enum LspResponse {
    Type(TaskId, String),
    Completions(TaskId, Vec<(String, String)>),
    Initialized(TaskId),
}

/// Everything the coordinator's own mailbox can carry.
#[derive(Debug, PartialEq)]
pub enum MsgToManager {
    QueryResponse(QueryResponse),
    LspRequest(LspRequest),
    Cancel(TaskId),
    Shutdown,
}

/// A request the coordinator forwards to the query system worker.
#[derive(Debug, PartialEq)]
pub enum QueryRequest {
    /// URI followed by contents
    OpenFile(url::Url, String),
    EditFile(String),
    TypeAtPosition(TaskId, url::Url, languageserver_types::Position),
}

/// A reply the query system posts back into the coordinator's mailbox.
#[derive(Debug, PartialEq)]
pub enum QueryResponse {
    Type(TaskId, String),
}

} // verus!
