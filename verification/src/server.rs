//! The decisions of the language server: what each message does to its state.
use crate::connection::{reparsed, ConnectionManager};
use crate::feature::{DocumentView, FeatureRequest};
use crate::protocol::{
    InitializeResult, Options, SaveOptions, ServerCapabilities, ServerInfo, TextDocumentItem,
    TextDocumentSyncKind, TextDocumentSyncOptions,
};
use crate::uri::Uri;
use crate::workspace::{find_by_uri, path_of, replaced, unique_uris, Document, Workspace};
use lsp_types::{ClientCapabilities, ClientInfo};
use std::path::PathBuf;
use std::sync::Arc;
use vstd::prelude::*;

verus! {

/// Work that the server does after it has answered a message.
#[derive(Debug, PartialEq, Eq, Clone)]
pub enum Action {
    RegisterCapabilities,
    PullConfiguration,
    Compile(Uri),
}

/// The actions waiting to be done, oldest first.
#[derive(Debug, Default)]
pub struct ActionManager {
    actions: Vec<Action>,
}

impl ActionManager {
    /// The actions waiting, oldest first.
    pub closed spec fn pending(&self) -> Seq<Action> {
        self.actions@
    }

    pub fn new() -> (res: Self)
        ensures
            res.pending() == Seq::<Action>::empty(),
    {
        Self { actions: Vec::new() }
    }

    /// Queues `action` after those waiting.
    pub fn push(&mut self, action: Action)
        ensures
            final(self).pending() == old(self).pending().push(action),
    {
        self.actions.push(action);
    }

    /// Hands out every waiting action, oldest first, and leaves none waiting.
    pub fn take(&mut self) -> (res: Vec<Action>)
        ensures
            res@ == old(self).pending(),
            final(self).pending() == Seq::<Action>::empty(),
    {
        let mut taken: Vec<Action> = Vec::new();
        std::mem::swap(&mut self.actions, &mut taken);
        taken
    }
}

/// The name the server gives itself.
pub open spec fn server_name() -> Seq<char> {
    "InterSystems Language Server"@
}

/// What the server offers: open and close notifications, every change with the
/// full text, no will-save notifications, and save notifications with the text.
pub open spec fn server_capabilities() -> ServerCapabilities {
    ServerCapabilities {
        text_document_sync: Some(
            TextDocumentSyncOptions {
                open_close: Some(true),
                change: Some(TextDocumentSyncKind::Full),
                will_save: Some(false),
                will_save_wait_until: Some(false),
                save: Some(SaveOptions { include_text: Some(true) }),
            },
        ),
    }
}

/// The text of the error for a request about a document that is not open.
pub open spec fn unknown_document_message(uri: Seq<char>) -> Seq<char> {
    "Unknown document: "@ + uri
}

#[verifier::external_type_specification]
#[verifier::external_body]
pub struct ExClientInfo(ClientInfo);

/// The state of the language server between messages.
pub struct ServerState {
    client_capabilities: Option<Arc<ClientCapabilities>>,
    client_info: Option<Option<ClientInfo>>,
    current_dir: Arc<PathBuf>,
    action_manager: ActionManager,
    connection_manager: ConnectionManager,
    workspace: Workspace,
}

impl ServerState {
    /// Whether `initialize` has been answered.
    pub closed spec fn was_initialized(&self) -> bool {
        self.client_capabilities is Some && self.client_info is Some
    }

    /// What the client told of itself when it initialized the server.
    pub closed spec fn announced_client_info(&self) -> Option<ClientInfo> {
        self.client_info->0
    }

    /// The capabilities that the client announced.
    pub closed spec fn capabilities(&self) -> ClientCapabilities {
        *self.client_capabilities->0
    }

    /// The open documents, in order.
    pub closed spec fn docs(&self) -> Seq<Document> {
        self.workspace.docs()
    }

    /// The actions waiting, oldest first.
    pub closed spec fn pending(&self) -> Seq<Action> {
        self.action_manager.pending()
    }

    /// The connection settings held.
    pub closed spec fn settings(&self) -> Seq<(Seq<char>, u16, u16, Seq<char>, Seq<char>, Seq<char>)> {
        self.connection_manager.settings()
    }

    /// The directory the server runs in.
    pub closed spec fn dir(&self) -> PathBuf {
        *self.current_dir
    }

    /// Whether `initialize` has been answered.
    pub fn is_initialized(&self) -> (res: bool)
        ensures
            res == self.was_initialized(),
    {
        self.client_capabilities.is_some() && self.client_info.is_some()
    }

    /// A server that has not been initialized, with no document, no action and
    /// no connection settings.
    pub fn new(current_dir: Arc<PathBuf>) -> (res: Self)
        ensures
            !res.was_initialized(),
            res.docs() == Seq::<Document>::empty(),
            res.pending() == Seq::<Action>::empty(),
            res.settings().len() == 0,
            res.dir() == *current_dir,
    {
        let workspace = Workspace::new(Arc::clone(&current_dir));
        Self {
            client_capabilities: None,
            client_info: None,
            current_dir,
            action_manager: ActionManager::new(),
            connection_manager: ConnectionManager::new(),
            workspace,
        }
    }

    /// Answers `initialize`: keeps the client's capabilities and what it told
    /// of itself, and tells what the server offers. A server is initialized once.
    pub fn initialize(
        &mut self,
        capabilities: ClientCapabilities,
        client_info: Option<ClientInfo>,
        version: String,
    ) -> (res: InitializeResult)
        requires
            !old(self).was_initialized(),
        ensures
            final(self).was_initialized(),
            final(self).capabilities() == capabilities,
            final(self).announced_client_info() == client_info,
            res.capabilities == server_capabilities(),
            res.server_info matches Some(info) && info.name@ == server_name() && info.version == Some(version),
            final(self).docs() == old(self).docs(),
            final(self).pending() == old(self).pending(),
            final(self).settings() == old(self).settings(),
            final(self).dir() == old(self).dir(),
    {
        self.client_capabilities = Some(Arc::new(capabilities));
        self.client_info = Some(client_info);
        let capabilities = ServerCapabilities {
            text_document_sync: Some(
                TextDocumentSyncOptions {
                    open_close: Some(true),
                    change: Some(TextDocumentSyncKind::Full),
                    will_save: Some(false),
                    will_save_wait_until: Some(false),
                    save: Some(SaveOptions { include_text: Some(true) }),
                },
            ),
        };
        InitializeResult {
            capabilities,
            server_info: Some(
                ServerInfo {
                    name: String::from_str("InterSystems Language Server"),
                    version: Some(version),
                },
            ),
        }
    }

    /// Answers `initialized`: the configuration is to be pulled, then the
    /// capabilities registered.
    pub fn initialized(&mut self)
        ensures
            final(self).pending() == old(self).pending().push(Action::PullConfiguration).push(
                Action::RegisterCapabilities,
            ),
            final(self).was_initialized() == old(self).was_initialized(),
            final(self).capabilities() == old(self).capabilities(),
            final(self).announced_client_info() == old(self).announced_client_info(),
            final(self).docs() == old(self).docs(),
            final(self).settings() == old(self).settings(),
    {
        self.action_manager.push(Action::PullConfiguration);
        self.action_manager.push(Action::RegisterCapabilities);
    }

    /// Answers `textDocument/didOpen`.
    pub fn did_open(&mut self, document: TextDocumentItem, options: &Options)
        ensures
            replaced(old(self).docs(), final(self).docs(), document.uri@, document.text@),
            unique_uris(final(self).docs()),
            final(self).was_initialized() == old(self).was_initialized(),
            final(self).capabilities() == old(self).capabilities(),
            final(self).announced_client_info() == old(self).announced_client_info(),
            final(self).pending() == old(self).pending(),
            final(self).settings() == old(self).settings(),
    {
        self.workspace.add(document, options);
    }

    /// Answers `textDocument/didChange`: each change holds the full new text,
    /// and they are applied in order.
    pub fn did_change(&mut self, uri: &Uri, changes: Vec<String>, options: &Options)
        ensures
            changes@.len() == 0 ==> final(self).docs() == old(self).docs(),
            changes@.len() > 0 ==> replaced(old(self).docs(), final(self).docs(), uri@, changes@.last()@),
            changes@.len() > 0 ==> (find_by_uri(final(self).docs(), uri@) matches Some(d) && d.text@
                == changes@.last()@),
            forall|other: Seq<char>| other != uri@ ==> #[trigger] find_by_uri(final(self).docs(), other)
                == find_by_uri(old(self).docs(), other),
            changes@.len() > 0 ==> unique_uris(final(self).docs()),
            final(self).was_initialized() == old(self).was_initialized(),
            final(self).capabilities() == old(self).capabilities(),
            final(self).announced_client_info() == old(self).announced_client_info(),
            final(self).pending() == old(self).pending(),
            final(self).settings() == old(self).settings(),
    {
        let n = changes.len();
        for i in 0..n
            invariant
                n == changes@.len(),
                i == 0 ==> self.docs() == old(self).docs(),
                i > 0 ==> replaced(old(self).docs(), self.docs(), uri@, changes@[i - 1]@),
                i > 0 ==> unique_uris(self.docs()),
                i > 0 ==> (find_by_uri(self.docs(), uri@) matches Some(d) && d.text@ == changes@[i - 1]@),
                forall|other: Seq<char>| other != uri@ ==> #[trigger] find_by_uri(self.docs(), other)
                    == find_by_uri(old(self).docs(), other),
                self.was_initialized() == old(self).was_initialized(),
                self.capabilities() == old(self).capabilities(),
                self.announced_client_info() == old(self).announced_client_info(),
                self.pending() == old(self).pending(),
                self.settings() == old(self).settings(),
        {
            let ghost before = self.docs();
            let text = changes[i].clone();
            self.workspace.update(uri.duplicate(), text, options);
            proof {
                if i > 0 {
                    crate::workspace::law_replace_twice(
                        old(self).docs(),
                        before,
                        self.docs(),
                        uri@,
                        changes@[i - 1]@,
                        changes@[i as int]@,
                    );
                }
                crate::workspace::law_update_then_find(before, self.docs(), uri@, changes@[i as int]@);
                assert forall|other: Seq<char>| other != uri@ implies #[trigger] find_by_uri(self.docs(), other)
                    == find_by_uri(old(self).docs(), other) by {
                    crate::workspace::law_update_keeps_others(before, self.docs(), uri@, changes@[i as int]@, other);
                }
            }
        }
    }

    /// Answers `textDocument/didSave`: the document is to be compiled.
    pub fn did_save(&mut self, uri: Uri)
        ensures
            final(self).pending() == old(self).pending().push(Action::Compile(uri)),
            final(self).was_initialized() == old(self).was_initialized(),
            final(self).capabilities() == old(self).capabilities(),
            final(self).announced_client_info() == old(self).announced_client_info(),
            final(self).docs() == old(self).docs(),
            final(self).settings() == old(self).settings(),
    {
        self.action_manager.push(Action::Compile(uri));
    }

    /// Takes in a configuration pulled from the client; the connection settings
    /// are read again only when it changed.
    pub fn pull_configuration(&mut self, options: &Options, has_changed: bool)
        ensures
            final(self).settings() == (if has_changed { reparsed(old(self).settings(), *options) } else { old(self).settings() }),
            final(self).was_initialized() == old(self).was_initialized(),
            final(self).capabilities() == old(self).capabilities(),
            final(self).announced_client_info() == old(self).announced_client_info(),
            final(self).docs() == old(self).docs(),
            final(self).pending() == old(self).pending(),
    {
        if has_changed {
            self.connection_manager.reparse(options);
        }
    }

    /// Answers `workspace/didChangeConfiguration` with the client's new configuration.
    pub fn did_change_configuration(&mut self, options: &Options)
        ensures
            final(self).settings() == reparsed(old(self).settings(), *options),
            final(self).was_initialized() == old(self).was_initialized(),
            final(self).capabilities() == old(self).capabilities(),
            final(self).announced_client_info() == old(self).announced_client_info(),
            final(self).docs() == old(self).docs(),
            final(self).pending() == old(self).pending(),
    {
        self.connection_manager.reparse(options);
    }

    /// The actions to do after the message just answered, oldest first; none
    /// is left waiting.
    pub fn take_actions(&mut self) -> (res: Vec<Action>)
        ensures
            res@ == old(self).pending(),
            final(self).pending() == Seq::<Action>::empty(),
            final(self).was_initialized() == old(self).was_initialized(),
            final(self).capabilities() == old(self).capabilities(),
            final(self).announced_client_info() == old(self).announced_client_info(),
            final(self).docs() == old(self).docs(),
            final(self).settings() == old(self).settings(),
    {
        self.action_manager.take()
    }

    /// The capabilities that the client announced when it initialized the
    /// server; the server must have been initialized.
    pub fn client_capabilities(&self) -> (res: Arc<ClientCapabilities>)
        requires
            self.was_initialized(),
        ensures
            *res == self.capabilities(),
    {
        match &self.client_capabilities {
            Some(c) => Arc::clone(c),
            None => vstd::pervasive::unreached(),
        }
    }

    /// What the client told of itself when it initialized the server; the
    /// server must have been initialized.
    pub fn client_info(&self) -> (res: &Option<ClientInfo>)
        requires
            self.was_initialized(),
        ensures
            *res == self.announced_client_info(),
    {
        match &self.client_info {
            Some(info) => info,
            None => vstd::pervasive::unreached(),
        }
    }

    /// The request for a feature on the document `uri`; refused when that
    /// document is not open.
    pub fn make_feature_request<P>(&self, uri: &Uri, params: P, options: Options) -> (res: Result<
        FeatureRequest<P>,
        String,
    >)
        requires
            self.was_initialized(),
        ensures
            res is Ok <==> find_by_uri(self.docs(), uri@) is Some,
            res matches Ok(req) ==> req.params == params && Some(*req.view.current) == find_by_uri(
                self.docs(),
                uri@,
            ) && req.view.snapshot.docs() == self.docs() && req.options == options
                && *req.client_capabilities == self.capabilities() && *req.current_dir == self.dir(),
            res matches Err(message) ==> message@ == unknown_document_message(uri@),
    {
        let snapshot = self.workspace.get();
        match snapshot.find(uri) {
            Some(current) => {
                let client_capabilities = self.client_capabilities();
                let view = DocumentView::analyze(snapshot, current, &options, path_of(&self.current_dir));
                Ok(
                    FeatureRequest {
                        params,
                        view,
                        client_capabilities,
                        options,
                        current_dir: Arc::clone(&self.current_dir),
                    },
                )
            },
            None => {
                let mut message = String::from_str("Unknown document: ");
                message.append(uri.as_str());
                Err(message)
            },
        }
    }

    /// The connection manager, for the work done on the database.
    pub fn connection_manager(&self) -> (res: &ConnectionManager)
        ensures
            res.settings() == self.settings(),
    {
        &self.connection_manager
    }

    /// The workspace, for reading the open documents.
    pub fn workspace(&self) -> (res: &Workspace)
        ensures
            res.docs() == self.docs(),
    {
        &self.workspace
    }
}

} // verus!
