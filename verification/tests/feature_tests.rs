use intersystems_ls::feature::{
    ChoiceProvider, ConcatProvider, DocumentView, FeatureProvider, FeatureRequest,
};
use intersystems_ls::protocol::Options;
use intersystems_ls::uri::Uri;
use intersystems_ls::workspace::{Document, DocumentParams, Snapshot};
use lsp_types::ClientCapabilities;
use std::cell::Cell;
use std::path::{Path, PathBuf};
use std::rc::Rc;
use std::sync::Arc;

fn request(params: u32) -> FeatureRequest<u32> {
    let options = Options::default();
    let current = Document::open(DocumentParams {
        uri: Uri::parse("file:///a.cls").unwrap(),
        text: "text".to_string(),
        options: &options,
        current_dir: Path::new("."),
    });
    let mut snapshot = Snapshot::new();
    snapshot.push(current.clone());
    let view = DocumentView::analyze(Arc::new(snapshot), Arc::new(current), &options, Path::new("."));
    FeatureRequest {
        params,
        view,
        client_capabilities: Arc::new(ClientCapabilities::default()),
        options,
        current_dir: Arc::new(PathBuf::from(".")),
    }
}

struct Fixed(Vec<u32>);

impl FeatureProvider<u32, Vec<u32>> for Fixed {
    fn execute(&self, req: &FeatureRequest<u32>) -> Vec<u32> {
        self.0.iter().map(|x| x + req.params).collect()
    }
}

struct Counted {
    answer: Option<u32>,
    calls: Rc<Cell<u32>>,
}

impl FeatureProvider<u32, Option<u32>> for Counted {
    fn execute(&self, _req: &FeatureRequest<u32>) -> Option<u32> {
        self.calls.set(self.calls.get() + 1);
        self.answer
    }
}

#[test]
fn request_gives_its_document_and_snapshot() {
    let req = request(0);
    assert_eq!(req.current().uri.as_str(), "file:///a.cls");
    assert_eq!(req.current().text, "text");
    assert_eq!(req.snapshot().0.len(), 1);
}

#[test]
fn concat_answers_in_order() {
    let p = ConcatProvider::new(vec![
        Box::new(Fixed(vec![1, 2])) as Box<dyn FeatureProvider<u32, Vec<u32>>>,
        Box::new(Fixed(vec![])),
        Box::new(Fixed(vec![3])),
    ]);
    assert_eq!(p.execute(&request(10)), vec![11, 12, 13]);
}

#[test]
fn concat_of_no_provider_is_empty() {
    let p: ConcatProvider<u32, u32> = ConcatProvider::new(Vec::new());
    assert!(p.execute(&request(0)).is_empty());
}

#[test]
fn choice_takes_first_some_and_stops() {
    let calls = Rc::new(Cell::new(0));
    let make = |answer| {
        Box::new(Counted { answer, calls: calls.clone() }) as Box<dyn FeatureProvider<u32, Option<u32>>>
    };
    let p = ChoiceProvider::new(vec![make(None), make(Some(7)), make(Some(8))]);
    assert_eq!(p.execute(&request(0)), Some(7));
    assert_eq!(calls.get(), 2);
}

#[test]
fn choice_of_all_none_is_none() {
    let calls = Rc::new(Cell::new(0));
    let p = ChoiceProvider::new(vec![
        Box::new(Counted { answer: None, calls: calls.clone() }) as Box<dyn FeatureProvider<u32, Option<u32>>>,
        Box::new(Counted { answer: None, calls: calls.clone() }),
    ]);
    assert_eq!(p.execute(&request(0)), None);
    assert_eq!(calls.get(), 2);
    let empty: ChoiceProvider<u32, u32> = ChoiceProvider::new(Vec::new());
    assert_eq!(empty.execute(&request(0)), None);
}
