//! The messages that the server exchanges with its client, as plain values.
use crate::uri::Uri;
use vstd::prelude::*;

verus! {

/// An interoperability production and whether it runs.
#[derive(Debug, PartialEq, Eq, Clone)]
pub struct Production {
    pub id: String,
    pub status: String,
}

/// A business service of a production.
#[derive(Debug, PartialEq, Eq, Clone)]
pub struct ProductionService {
    pub id: String,
}

/// A business operation of a production.
#[derive(Debug, PartialEq, Eq, Clone)]
pub struct ProductionOperation {
    pub id: String,
}

/// A business process of a production.
#[derive(Debug, PartialEq, Eq, Clone)]
pub struct ProductionProcess {
    pub id: String,
}

#[derive(Debug, PartialEq, Eq, Clone)]
pub struct ProductionsResult {
    pub list: Vec<Production>,
}

#[derive(Debug, PartialEq, Eq, Clone)]
pub struct ProductionServicesResult {
    pub list: Vec<ProductionService>,
}

#[derive(Debug, PartialEq, Eq, Clone)]
pub struct ProductionProcessesResult {
    pub list: Vec<ProductionProcess>,
}

#[derive(Debug, PartialEq, Eq, Clone)]
pub struct ProductionOperationsResult {
    pub list: Vec<ProductionOperation>,
}

/// A global of the current namespace, named with its leading `^`.
#[derive(Debug, PartialEq, Eq, Clone)]
pub struct Global {
    pub name: String,
}

#[derive(Debug, PartialEq, Eq, Clone)]
pub struct GlobalsResult {
    pub list: Vec<Global>,
}

#[derive(Debug, PartialEq, Eq, Clone)]
pub struct Job {
    pub id: String,
}

#[derive(Debug, PartialEq, Eq, Clone)]
pub struct JobsResult {
    pub list: Vec<Job>,
}

#[derive(Debug, PartialEq, Eq, Clone)]
pub struct InterSystemsConnectedParams {
    pub version: String,
}

/// Names a document.
#[derive(Debug, PartialEq, Eq, Clone)]
pub struct TextDocumentIdentifier {
    pub uri: Uri,
}

/// A document as the client opens it.
#[derive(Debug, PartialEq, Eq, Clone)]
pub struct TextDocumentItem {
    pub uri: Uri,
    pub language_id: String,
    pub version: i32,
    pub text: String,
}

#[derive(Debug, PartialEq, Eq, Clone)]
pub struct CompileParams {
    pub text_document: TextDocumentIdentifier,
}

/// How a compilation ended; on the wire it is the number that `code` gives.
#[derive(Debug, PartialEq, Eq, Clone, Copy, Structural)]
pub enum CompileStatus {
    Success,
    Error,
    Failure,
    Cancelled,
}

/// The wire number of each status.
pub open spec fn status_code(status: CompileStatus) -> i32 {
    match status {
        CompileStatus::Success => 0,
        CompileStatus::Error => 1,
        CompileStatus::Failure => 2,
        CompileStatus::Cancelled => 3,
    }
}

impl CompileStatus {
    /// The number that stands for the status on the wire.
    pub fn code(&self) -> (res: i32)
        ensures
            res == status_code(*self),
    {
        match self {
            CompileStatus::Success => 0,
            CompileStatus::Error => 1,
            CompileStatus::Failure => 2,
            CompileStatus::Cancelled => 3,
        }
    }

    /// The status that a wire number stands for, if any.
    pub fn from_code(code: i32) -> (res: Option<CompileStatus>)
        ensures
            res is Some <==> 0 <= code <= 3,
            res matches Some(s) ==> status_code(s) == code,
    {
        if code == 0 {
            Some(CompileStatus::Success)
        } else if code == 1 {
            Some(CompileStatus::Error)
        } else if code == 2 {
            Some(CompileStatus::Failure)
        } else if code == 3 {
            Some(CompileStatus::Cancelled)
        } else {
            None
        }
    }
}

/// Law: each status has its own wire number in 0..=3, so decoding the number
/// of a status gives the status back.
pub proof fn law_status_code_round_trip(status: CompileStatus)
    ensures
        0 <= status_code(status) <= 3,
        forall|other: CompileStatus| status_code(other) == status_code(status) ==> other == status,
{
}

#[derive(Debug, PartialEq, Eq, Clone, Copy, Structural)]
pub struct CompileResult {
    pub status: CompileStatus,
}

/// Where and as whom to reach the server; every field may be left out.
#[derive(Debug, PartialEq, Eq, Clone, Default)]
pub struct ConnectionOptions {
    pub active: Option<bool>,
    pub host: Option<String>,
    pub port: Option<u16>,
    pub super_port: Option<u16>,
    pub ns: Option<String>,
    pub username: Option<String>,
    pub password: Option<String>,
}

#[derive(Debug, PartialEq, Eq, Clone, Default)]
pub struct ObjectScriptOptions {
    pub conn: Option<ConnectionOptions>,
}

/// The client's configuration of the server.
#[derive(Debug, PartialEq, Eq, Clone, Default)]
pub struct Options {
    pub objectscript: Option<ObjectScriptOptions>,
}

/// How the client sends changes of a document (`NoSync`: it does not).
#[derive(Debug, PartialEq, Eq, Clone, Copy, Structural)]
pub enum TextDocumentSyncKind {
    NoSync,
    Full,
    Incremental,
}

#[derive(Debug, PartialEq, Eq, Clone, Copy, Structural)]
pub struct SaveOptions {
    pub include_text: Option<bool>,
}

/// Which document notifications the server wants, and in what form.
#[derive(Debug, PartialEq, Eq, Clone, Copy, Structural)]
pub struct TextDocumentSyncOptions {
    pub open_close: Option<bool>,
    pub change: Option<TextDocumentSyncKind>,
    pub will_save: Option<bool>,
    pub will_save_wait_until: Option<bool>,
    pub save: Option<SaveOptions>,
}

/// What the server offers; every capability not named here is left out.
#[derive(Debug, PartialEq, Eq, Clone, Copy, Structural)]
pub struct ServerCapabilities {
    pub text_document_sync: Option<TextDocumentSyncOptions>,
}

#[derive(Debug, PartialEq, Eq, Clone)]
pub struct ServerInfo {
    pub name: String,
    pub version: Option<String>,
}

/// The answer to `initialize`.
#[derive(Debug, PartialEq, Eq, Clone)]
pub struct InitializeResult {
    pub capabilities: ServerCapabilities,
    pub server_info: Option<ServerInfo>,
}

} // verus!
