use intersystems_ls::protocol::{
    ConnectionOptions, ObjectScriptOptions, Options, SaveOptions, TextDocumentItem,
    TextDocumentSyncKind,
};
use intersystems_ls::server::{Action, ActionManager, ServerState};
use intersystems_ls::uri::Uri;
use lsp_types::ClientCapabilities;
use std::path::PathBuf;
use std::sync::Arc;

fn uri(s: &str) -> Uri {
    Uri::parse(s).unwrap()
}

fn server() -> ServerState {
    ServerState::new(Arc::new(PathBuf::from("/work")))
}

#[test]
fn action_manager_is_first_in_first_out() {
    let mut m = ActionManager::new();
    m.push(Action::PullConfiguration);
    m.push(Action::Compile(uri("file:///a.cls")));
    assert_eq!(m.take(), vec![Action::PullConfiguration, Action::Compile(uri("file:///a.cls"))]);
    assert!(m.take().is_empty());
}

#[test]
fn initialize_announces_capabilities() {
    let mut s = server();
    let res = s.initialize(ClientCapabilities::default(), None, "1.2.3".to_string());
    let sync = res.capabilities.text_document_sync.unwrap();
    assert_eq!(sync.open_close, Some(true));
    assert_eq!(sync.change, Some(TextDocumentSyncKind::Full));
    assert_eq!(sync.will_save, Some(false));
    assert_eq!(sync.will_save_wait_until, Some(false));
    assert_eq!(sync.save, Some(SaveOptions { include_text: Some(true) }));
    let info = res.server_info.unwrap();
    assert_eq!(info.name, "InterSystems Language Server");
    assert_eq!(info.version.as_deref(), Some("1.2.3"));
}

#[test]
fn initialized_queues_pull_then_register() {
    let mut s = server();
    s.initialized();
    assert_eq!(s.take_actions(), vec![Action::PullConfiguration, Action::RegisterCapabilities]);
    assert!(s.take_actions().is_empty());
}

#[test]
fn did_save_queues_compile() {
    let mut s = server();
    s.did_save(uri("file:///a.cls"));
    assert_eq!(s.take_actions(), vec![Action::Compile(uri("file:///a.cls"))]);
}

fn open(s: &mut ServerState, u: &str, text: &str) {
    s.did_open(
        TextDocumentItem {
            uri: uri(u),
            language_id: "objectscript".to_string(),
            version: 1,
            text: text.to_string(),
        },
        &Options::default(),
    );
}

#[test]
fn did_change_keeps_last_text() {
    let mut s = server();
    open(&mut s, "file:///a.cls", "v0");
    open(&mut s, "file:///b.cls", "b");
    s.did_change(&uri("file:///a.cls"), vec!["v1".to_string(), "v2".to_string()], &Options::default());
    let snap = s.workspace().get();
    assert_eq!(snap.find(&uri("file:///a.cls")).unwrap().text, "v2");
    assert_eq!(snap.find(&uri("file:///b.cls")).unwrap().text, "b");
    assert_eq!(snap.0.len(), 2);
}

#[test]
fn did_change_without_changes_keeps_documents() {
    let mut s = server();
    open(&mut s, "file:///a.cls", "v0");
    s.did_change(&uri("file:///a.cls"), Vec::new(), &Options::default());
    assert_eq!(s.workspace().get().find(&uri("file:///a.cls")).unwrap().text, "v0");
}

#[test]
fn feature_request_for_open_document() {
    let mut s = server();
    s.initialize(ClientCapabilities::default(), None, "0".to_string());
    open(&mut s, "file:///a.cls", "text");
    let req = s.make_feature_request(&uri("file:///a.cls"), 5u8, Options::default()).unwrap();
    assert_eq!(req.params, 5);
    assert_eq!(req.current().text, "text");
    assert_eq!(req.snapshot().0.len(), 1);
    assert_eq!(*req.current_dir, PathBuf::from("/work"));
}

#[test]
fn feature_request_for_unknown_document() {
    let mut s = server();
    s.initialize(ClientCapabilities::default(), None, "0".to_string());
    let err = s.make_feature_request(&uri("file:///x.cls"), (), Options::default()).err().unwrap();
    assert_eq!(err, "Unknown document: file:///x.cls");
}

fn active_options(host: &str) -> Options {
    Options {
        objectscript: Some(ObjectScriptOptions {
            conn: Some(ConnectionOptions {
                active: Some(true),
                host: Some(host.to_string()),
                port: Some(80),
                super_port: Some(1972),
                ns: Some("USER".to_string()),
                username: Some("u".to_string()),
                password: Some("p".to_string()),
            }),
        }),
    }
}

#[test]
fn pull_configuration_reparses_only_on_change() {
    let mut s = server();
    s.pull_configuration(&active_options("first"), false);
    assert!(s.connection_manager().connection_settings().is_none());
    s.pull_configuration(&active_options("second"), true);
    assert_eq!(s.connection_manager().connection_settings().unwrap().host, "second");
    s.did_change_configuration(&active_options("third"));
    assert_eq!(s.connection_manager().connection_settings().unwrap().host, "second");
}

#[test]
fn did_change_ends_as_one_replacement_with_last_text() {
    let mut s = server();
    open(&mut s, "file:///a.cls", "v0");
    open(&mut s, "file:///b.cls", "b");
    open(&mut s, "file:///c.cls", "c");
    s.did_change(
        &uri("file:///a.cls"),
        vec!["v1".to_string(), "v2".to_string(), "v3".to_string()],
        &Options::default(),
    );
    let snap = s.workspace().get();
    let docs: Vec<(&str, &str)> = snap.0.iter().map(|d| (d.uri.as_str(), d.text.as_str())).collect();
    assert_eq!(docs, vec![("file:///b.cls", "b"), ("file:///c.cls", "c"), ("file:///a.cls", "v3")]);
}

#[test]
fn client_capabilities_are_those_given_at_initialize() {
    let mut s = server();
    let mut caps = ClientCapabilities::default();
    caps.experimental = Some(lsp_types::LSPAny::Bool(true));
    s.initialize(caps.clone(), None, "0".to_string());
    s.initialized();
    s.did_save(uri("file:///a.cls"));
    assert_eq!(*s.client_capabilities(), caps);
    assert!(s.is_initialized());
}

#[test]
fn client_info_is_kept_from_initialize() {
    let mut s = server();
    let info = lsp_types::ClientInfo { name: "vscode".to_string(), version: Some("1.90".to_string()) };
    s.initialize(ClientCapabilities::default(), Some(info.clone()), "0".to_string());
    s.did_save(uri("file:///a.cls"));
    s.take_actions();
    assert_eq!(s.client_info(), &Some(info));
    let mut t = server();
    t.initialize(ClientCapabilities::default(), None, "0".to_string());
    assert_eq!(t.client_info(), &None);
}
