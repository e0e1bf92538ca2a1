//! What the server asks the database to compile, and how it reports the outcome.
use crate::protocol::{CompileResult, CompileStatus};
use crate::text::{lines_of, split_lines, string_views};
use crate::uri::Uri;
use crate::workspace::Document;
use std::path::PathBuf;
use vstd::prelude::*;

verus! {

/// A document to load into the database and compile there.
#[derive(Debug, PartialEq, Eq, Clone)]
pub struct CompileJob {
    /// The name of the file that the document is saved as.
    pub filename: String,
    /// The compiler flags: compile (`c`) and keep the source (`k`).
    pub flags: String,
    /// The lines of the document.
    pub lines: Vec<String>,
}

/// The job that compiles the document `text`, saved as `filename`.
pub fn compile_job(filename: String, text: &str) -> (res: CompileJob)
    ensures
        res.filename == filename,
        res.flags@ == "ck"@,
        string_views(res.lines@) == lines_of(text@),
{
    CompileJob { filename, flags: String::from_str("ck"), lines: split_lines(text) }
}

/// The outcome reported to the client: success only when the server could be
/// reached and the compilation succeeded.
pub fn compile_result(connected: bool, succeeded: bool) -> (res: CompileResult)
    ensures
        res.status == (if connected && succeeded { CompileStatus::Success } else { CompileStatus::Error }),
{
    if connected && succeeded {
        CompileResult { status: CompileStatus::Success }
    } else {
        CompileResult { status: CompileStatus::Error }
    }
}

/// Calls `lsp_types::Url::to_file_path` on the URL that `uri` serializes:
/// the file path it names, or `None` where it names none. The path depends on
/// the platform, so nothing is claimed of the result.
#[verifier::external_body]
fn file_path_of(uri: &Uri) -> Option<PathBuf> {
    match lsp_types::Url::parse(uri.as_str()) {
        Ok(url) => url.to_file_path().ok(),
        Err(_) => None,
    }
}

/// Calls `std::path::Path::file_name`: the last component of `path`, as text
/// (through `OsStr::to_string_lossy`), or `None` where it has none. Nothing is
/// claimed of the result.
#[verifier::external_body]
fn file_name_in(path: &PathBuf) -> Option<String> {
    match path.file_name() {
        Some(name) => Some(name.to_string_lossy().into_owned()),
        None => None,
    }
}

/// The job that compiles `document` under the name of its file; `None` where
/// its identifier names no file.
pub fn compile_job_of(document: &Document) -> (res: Option<CompileJob>)
    ensures
        res matches Some(job) ==> job.flags@ == "ck"@ && string_views(job.lines@) == lines_of(
            document.text@,
        ),
{
    match file_path_of(&document.uri) {
        Some(path) => match file_name_in(&path) {
            Some(filename) => Some(compile_job(filename, document.text.as_str())),
            None => None,
        },
        None => None,
    }
}

} // verus!
