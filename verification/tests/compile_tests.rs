use intersystems_ls::compile::{compile_job, compile_job_of, compile_result};
use intersystems_ls::protocol::{CompileStatus, Options};
use intersystems_ls::uri::Uri;
use intersystems_ls::workspace::{Document, DocumentParams};
use std::path::Path;

#[test]
fn compile_job_splits_document() {
    let job = compile_job("Demo.cls".to_string(), "Class Demo\r\n{\r\n}\r\n");
    assert_eq!(job.filename, "Demo.cls");
    assert_eq!(job.flags, "ck");
    assert_eq!(job.lines, vec!["Class Demo", "{", "}"]);
}

#[test]
fn compile_result_success_needs_connection_and_success() {
    assert_eq!(compile_result(true, true).status, CompileStatus::Success);
    assert_eq!(compile_result(true, false).status, CompileStatus::Error);
    assert_eq!(compile_result(false, false).status, CompileStatus::Error);
    assert_eq!(compile_result(false, true).status, CompileStatus::Error);
}

fn document(u: &str, text: &str) -> Document {
    let options = Options::default();
    Document::open(DocumentParams {
        uri: Uri::parse(u).unwrap(),
        text: text.to_string(),
        options: &options,
        current_dir: Path::new("/"),
    })
}

#[test]
fn compile_job_of_file_document() {
    let job = compile_job_of(&document("file:///tmp/Test.cls", "A\nB")).unwrap();
    assert_eq!(job.filename, "Test.cls");
    assert_eq!(job.flags, "ck");
    assert_eq!(job.lines, vec!["A", "B"]);
}

#[test]
fn compile_job_of_decodes_file_name() {
    let job = compile_job_of(&document("file:///tmp/My%20Class.cls", "")).unwrap();
    assert_eq!(job.filename, "My Class.cls");
    assert!(job.lines.is_empty());
}

#[test]
fn compile_job_of_non_file_document() {
    assert!(compile_job_of(&document("isfs://server/Test.cls", "A")).is_none());
}
