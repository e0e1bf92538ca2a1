//! The documents that the client has opened, as immutable snapshots.
use crate::protocol::{Options, TextDocumentItem};
use crate::uri::{scheme_of, Uri};
use std::path::{Path, PathBuf};
use std::sync::Arc;
use std::time::SystemTime;
use vstd::prelude::*;

verus! {

#[verifier::external_type_specification]
#[verifier::external_body]
pub struct ExSystemTime(SystemTime);

#[verifier::external_type_specification]
#[verifier::external_body]
pub struct ExPathBuf(PathBuf);

#[verifier::external_type_specification]
#[verifier::external_body]
pub struct ExPath(Path);

/// `SystemTime` is `Copy`: its clone is the same instant.
pub assume_specification[ <SystemTime as Clone>::clone ](t: &SystemTime) -> (res: SystemTime)
    ensures
        res == *t,
;

/// Calls `std::time::SystemTime::now`. Nothing is claimed of the result: it is
/// the time at which the call is made.
#[verifier::external_body]
fn system_time_now() -> SystemTime {
    SystemTime::now()
}

/// What a document holds.
#[derive(Debug, Clone)]
pub enum DocumentContent {
    Objectscript,
}

/// An open document: its identifier, its full text and when it was read.
#[derive(Debug, Clone)]
pub struct Document {
    pub uri: Uri,
    pub text: String,
    pub content: DocumentContent,
    pub modified: SystemTime,
}

/// What a document is opened from.
#[derive(Debug, PartialEq, Eq, Clone)]
pub struct DocumentParams<'a> {
    pub uri: Uri,
    pub text: String,
    pub options: &'a Options,
    pub current_dir: &'a Path,
}

impl Document {
    /// Whether the document lives in the file system (its scheme is `file`).
    pub fn is_file(&self) -> (res: bool)
        ensures
            res == (scheme_of(self.uri@) == "file"@),
    {
        let scheme = self.uri.scheme();
        let file = String::from_str("file");
        scheme == file
    }

    /// Opens a document with the identifier and text of `params`, stamped with
    /// the current time.
    pub fn open(params: DocumentParams) -> (res: Self)
        ensures
            res.uri == params.uri,
            res.text == params.text,
            res.content == DocumentContent::Objectscript,
    {
        Self::open_at(params, system_time_now())
    }

    /// Opens a document with the identifier and text of `params`, stamped with
    /// `modified`.
    pub fn open_at(params: DocumentParams, modified: SystemTime) -> (res: Self)
        ensures
            res.uri == params.uri,
            res.text == params.text,
            res.content == DocumentContent::Objectscript,
            res.modified == modified,
    {
        let DocumentParams { uri, text, .. } = params;
        let content = DocumentContent::Objectscript;
        Self { uri, text, content, modified }
    }
}

/// Two documents are the same document when they have the same identifier.
impl PartialEq for Document {
    fn eq(&self, other: &Self) -> (res: bool) {
        self.uri == other.uri
    }
}

impl vstd::std_specs::cmp::PartialEqSpecImpl for Document {
    open spec fn obeys_eq_spec() -> bool {
        true
    }

    open spec fn eq_spec(&self, other: &Self) -> bool {
        self.uri@ == other.uri@
    }
}

impl Eq for Document {
}

/// Calls `<str as Hash>::hash`: feeds `text` to `state`. Nothing is claimed of
/// the hasher's state afterwards.
#[verifier::external_body]
fn hash_text<H: std::hash::Hasher>(text: &str, state: &mut H) {
    std::hash::Hash::hash(text, state)
}

/// A document hashes as its identifier alone, so that equal documents hash alike.
impl std::hash::Hash for Document {
    fn hash<H: std::hash::Hasher>(&self, state: &mut H) {
        hash_text(self.uri.as_str(), state)
    }
}

/// The documents of a snapshot, in order.
pub open spec fn docs_of(v: Seq<Arc<Document>>) -> Seq<Document> {
    v.map_values(|d: Arc<Document>| *d)
}

/// The first document, in order, whose identifier is `uri`.
pub open spec fn find_by_uri(docs: Seq<Document>, uri: Seq<char>) -> Option<Document>
    decreases docs.len(),
{
    if docs.len() == 0 {
        None
    } else {
        let found = find_by_uri(docs.drop_last(), uri);
        if found is Some {
            found
        } else if docs.last().uri@ == uri {
            Some(docs.last())
        } else {
            None
        }
    }
}

/// The documents whose identifier is not `uri`, in order.
pub open spec fn without_uri(docs: Seq<Document>, uri: Seq<char>) -> Seq<Document> {
    docs.filter(named_otherwise(uri))
}

/// Holds of the documents whose identifier is not `uri`.
pub open spec fn named_otherwise(uri: Seq<char>) -> spec_fn(Document) -> bool {
    |d: Document| d.uri@ != uri
}

/// No two documents share an identifier.
pub open spec fn unique_uris(docs: Seq<Document>) -> bool {
    forall|i: int, j: int|
        0 <= i < docs.len() && 0 <= j < docs.len() && i != j ==> docs[i].uri@ != docs[j].uri@
}

/// A set of documents at one moment.
#[derive(Debug, PartialEq, Eq, Clone, Default)]
pub struct Snapshot(pub Vec<Arc<Document>>);

impl Snapshot {
    /// The documents of the snapshot, in order.
    pub open spec fn docs(&self) -> Seq<Document> {
        docs_of(self.0@)
    }

    /// An empty snapshot.
    pub fn new() -> (res: Self)
        ensures
            res.docs() == Seq::<Document>::empty(),
    {
        Self(Vec::new())
    }

    /// Adds a document at the end.
    pub fn push(&mut self, doc: Document)
        ensures
            final(self).docs() == old(self).docs().push(doc),
    {
        self.0.push(Arc::new(doc));
        proof {
            assert(docs_of(self.0@) =~= docs_of(old(self).0@).push(doc));
        }
    }

    /// The first document whose identifier is `uri`.
    pub fn find(&self, uri: &Uri) -> (res: Option<Arc<Document>>)
        ensures
            res is Some <==> find_by_uri(self.docs(), uri@) is Some,
            res matches Some(d) ==> find_by_uri(self.docs(), uri@) == Some(*d),
    {
        let n = self.0.len();
        for i in 0..n
            invariant
                n == self.0@.len(),
                find_by_uri(self.docs().take(i as int), uri@) is None,
        {
            proof {
                assert(self.docs().take(i + 1).drop_last() =~= self.docs().take(i as int));
            }
            if self.0[i].uri == *uri {
                proof {
                    lemma_find_prefix(self.docs(), uri@, (i + 1) as int, n as int);
                    assert(self.docs().take(n as int) =~= self.docs());
                }
                return Some(Arc::clone(&self.0[i]));
            }
        }
        proof {
            assert(self.docs().take(n as int) =~= self.docs());
        }
        None
    }
}

/// Once a prefix holds a document with the identifier, longer prefixes find
/// the same one.
proof fn lemma_find_prefix(docs: Seq<Document>, uri: Seq<char>, i: int, k: int)
    requires
        0 <= i <= k <= docs.len(),
        find_by_uri(docs.take(i), uri) is Some,
    ensures
        find_by_uri(docs.take(k), uri) == find_by_uri(docs.take(i), uri),
    decreases k - i,
{
    if k > i {
        lemma_find_prefix(docs, uri, i, k - 1);
        assert(docs.take(k).drop_last() =~= docs.take(k - 1));
    }
}

/// Calls `std::path::PathBuf::as_path`; nothing is claimed of the result.
#[verifier::external_body]
pub(crate) fn path_of(path: &PathBuf) -> &Path {
    path.as_path()
}

/// `after` is `before` with every document named `uri` taken out and a new
/// document named `uri` with text `text` put at the end.
pub open spec fn replaced(
    before: Seq<Document>,
    after: Seq<Document>,
    uri: Seq<char>,
    text: Seq<char>,
) -> bool {
    &&& after.len() > 0
    &&& after.drop_last() == without_uri(before, uri)
    &&& after.last().uri@ == uri
    &&& after.last().text@ == text
    &&& after.last().content == DocumentContent::Objectscript
}

/// The documents that the client has open, and the directory the server runs in.
pub struct Workspace {
    current_dir: Arc<PathBuf>,
    snapshot: Arc<Snapshot>,
}

impl Workspace {
    /// No two open documents share an identifier.
    #[verifier::type_invariant]
    pub(crate) closed spec fn uris_unique(&self) -> bool {
        unique_uris(self.snapshot.docs())
    }

    /// The documents of the current snapshot, in order.
    pub closed spec fn docs(&self) -> Seq<Document> {
        self.snapshot.docs()
    }

    /// The directory the server runs in.
    pub closed spec fn dir(&self) -> PathBuf {
        *self.current_dir
    }

    /// A workspace with no document.
    pub fn new(current_dir: Arc<PathBuf>) -> (res: Self)
        ensures
            res.docs() == Seq::<Document>::empty(),
            res.dir() == *current_dir,
    {
        Self { current_dir, snapshot: Arc::new(Snapshot::new()) }
    }

    /// The current snapshot.
    pub fn get(&self) -> (res: Arc<Snapshot>)
        ensures
            res.docs() == self.docs(),
            unique_uris(res.docs()),
    {
        proof {
            use_type_invariant(self);
        }
        Arc::clone(&self.snapshot)
    }

    /// Opens `document`, in place of any document with its identifier.
    pub fn add(&mut self, document: TextDocumentItem, options: &Options)
        ensures
            replaced(old(self).docs(), final(self).docs(), document.uri@, document.text@),
            unique_uris(final(self).docs()),
            final(self).dir() == old(self).dir(),
    {
        proof {
            use_type_invariant(&*self);
        }
        let ghost uri = document.uri@;
        let ghost text = document.text@;
        let snapshot = Arc::clone(&self.snapshot);
        let next = self.add_or_update(&snapshot, document.uri, document.text, options);
        proof {
            law_update_keeps_uris_unique(snapshot.docs(), next.docs(), uri, text);
        }
        self.snapshot = next;
    }

    /// Gives the document `uri` the text `text`.
    pub fn update(&mut self, uri: Uri, text: String, options: &Options)
        ensures
            replaced(old(self).docs(), final(self).docs(), uri@, text@),
            unique_uris(final(self).docs()),
            final(self).dir() == old(self).dir(),
    {
        proof {
            use_type_invariant(&*self);
        }
        let ghost u = uri@;
        let ghost t = text@;
        let snapshot = Arc::clone(&self.snapshot);
        let next = self.add_or_update(&snapshot, uri, text, options);
        proof {
            law_update_keeps_uris_unique(snapshot.docs(), next.docs(), u, t);
        }
        self.snapshot = next;
    }

    fn add_or_update(
        &self,
        snapshot: &Snapshot,
        uri: Uri,
        text: String,
        options: &Options,
    ) -> (res: Arc<Snapshot>)
        ensures
            replaced(snapshot.docs(), res.docs(), uri@, text@),
    {
        let document = Document::open(
            DocumentParams { uri, text, options, current_dir: path_of(&self.current_dir) },
        );
        let n = snapshot.0.len();
        let mut documents: Vec<Arc<Document>> = Vec::new();
        for i in 0..n
            invariant
                n == snapshot.0@.len(),
                docs_of(documents@) == without_uri(snapshot.docs().take(i as int), document.uri@),
        {
            proof {
                let ghost pred = named_otherwise(document.uri@);
                assert(snapshot.docs().take(i + 1) =~= snapshot.docs().take(i as int).push(
                    snapshot.docs()[i as int],
                ));
                snapshot.docs().take(i as int).lemma_filter_push(snapshot.docs()[i as int], pred);
            }
            if !(snapshot.0[i].uri == document.uri) {
                let ghost before = documents@;
                documents.push(Arc::clone(&snapshot.0[i]));
                proof {
                    assert(docs_of(documents@) =~= docs_of(before).push(snapshot.docs()[i as int]));
                }
            }
        }
        proof {
            assert(snapshot.docs().take(n as int) =~= snapshot.docs());
        }
        let ghost kept = documents@;
        documents.push(Arc::new(document));
        proof {
            assert(docs_of(documents@).drop_last() =~= docs_of(kept));
        }
        Arc::new(Snapshot(documents))
    }

    /// Does nothing: documents do not depend on the configuration.
    pub fn reparse(&self, _options: &Options)
    {
    }
}

/// No document that is kept by `without_uri` has the identifier `uri`.
proof fn lemma_without_uri_excludes(docs: Seq<Document>, uri: Seq<char>)
    ensures
        find_by_uri(without_uri(docs, uri), uri) is None,
        forall|i: int| 0 <= i < without_uri(docs, uri).len() ==> #[trigger] without_uri(docs, uri)[i].uri@ != uri,
    decreases docs.len(),
{
    let pred = named_otherwise(uri);
    if docs.len() > 0 {
        lemma_without_uri_excludes(docs.drop_last(), uri);
        assert(docs.drop_last().push(docs.last()) =~= docs);
        docs.drop_last().lemma_filter_push(docs.last(), pred);
        let w = without_uri(docs.drop_last(), uri);
        if pred(docs.last()) {
            assert(without_uri(docs, uri).drop_last() =~= w);
        }
    } else {
        reveal(Seq::filter);
    }
}

/// Taking out the documents named `uri` does not change what is found under another name.
proof fn lemma_without_uri_find_other(docs: Seq<Document>, uri: Seq<char>, other: Seq<char>)
    requires
        other != uri,
    ensures
        find_by_uri(without_uri(docs, uri), other) == find_by_uri(docs, other),
    decreases docs.len(),
{
    let pred = named_otherwise(uri);
    if docs.len() > 0 {
        lemma_without_uri_find_other(docs.drop_last(), uri, other);
        assert(docs.drop_last().push(docs.last()) =~= docs);
        docs.drop_last().lemma_filter_push(docs.last(), pred);
        let w = without_uri(docs.drop_last(), uri);
        if pred(docs.last()) {
            assert(without_uri(docs, uri).drop_last() =~= w);
        }
    } else {
        reveal(Seq::filter);
    }
}

/// `sub` is the documents of `docs` at the increasing positions `idx`.
spec fn picks(docs: Seq<Document>, sub: Seq<Document>, idx: Seq<int>) -> bool {
    &&& idx.len() == sub.len()
    &&& forall|k: int| 0 <= k < idx.len() ==> 0 <= #[trigger] idx[k] < docs.len() && docs[idx[k]] == sub[k]
    &&& forall|k: int, l: int| 0 <= k < l < idx.len() ==> #[trigger] idx[k] < #[trigger] idx[l]
}

/// Every document kept by `without_uri` stands in `docs`, in the same order.
proof fn lemma_without_uri_subsequence(docs: Seq<Document>, uri: Seq<char>)
    ensures
        exists|idx: Seq<int>| #[trigger] picks(docs, without_uri(docs, uri), idx),
    decreases docs.len(),
{
    let pred = named_otherwise(uri);
    if docs.len() == 0 {
        reveal(Seq::filter);
        assert(picks(docs, without_uri(docs, uri), Seq::<int>::empty()));
    } else {
        lemma_without_uri_subsequence(docs.drop_last(), uri);
        let idx = choose|idx: Seq<int>| #[trigger] picks(docs.drop_last(), without_uri(docs.drop_last(), uri), idx);
        assert(docs.drop_last().push(docs.last()) =~= docs);
        docs.drop_last().lemma_filter_push(docs.last(), pred);
        if pred(docs.last()) {
            let idx2 = idx.push(docs.len() - 1);
            assert(picks(docs, without_uri(docs, uri), idx2));
        } else {
            assert(picks(docs, without_uri(docs, uri), idx));
        }
    }
}

/// Law: after a document is opened or changed, looking up its identifier gives
/// the document with the new text.
pub proof fn law_update_then_find(
    before: Seq<Document>,
    after: Seq<Document>,
    uri: Seq<char>,
    text: Seq<char>,
)
    requires
        replaced(before, after, uri, text),
    ensures
        find_by_uri(after, uri) matches Some(d) && d.uri@ == uri && d.text@ == text,
{
    lemma_without_uri_excludes(before, uri);
    assert(after.drop_last().push(after.last()) =~= after);
}

/// Law: opening or changing one document does not change what is found under
/// any other identifier.
pub proof fn law_update_keeps_others(
    before: Seq<Document>,
    after: Seq<Document>,
    uri: Seq<char>,
    text: Seq<char>,
    other: Seq<char>,
)
    requires
        replaced(before, after, uri, text),
        other != uri,
    ensures
        find_by_uri(after, other) == find_by_uri(before, other),
{
    lemma_without_uri_find_other(before, uri, other);
    assert(after.drop_last().push(after.last()) =~= after);
}

/// Law: a workspace never holds two documents with the same identifier, when
/// it starts from one that does not.
pub proof fn law_update_keeps_uris_unique(
    before: Seq<Document>,
    after: Seq<Document>,
    uri: Seq<char>,
    text: Seq<char>,
)
    requires
        replaced(before, after, uri, text),
        unique_uris(before),
    ensures
        unique_uris(after),
{
    lemma_without_uri_excludes(before, uri);
    lemma_without_uri_subsequence(before, uri);
    let w = without_uri(before, uri);
    let idx = choose|idx: Seq<int>| #[trigger] picks(before, w, idx);
    assert forall|i: int, j: int|
        0 <= i < after.len() && 0 <= j < after.len() && i != j implies after[i].uri@ != after[j].uri@ by {
        if i < after.len() - 1 && j < after.len() - 1 {
            assert(after[i] == w[i]);
            assert(after[j] == w[j]);
            if i < j {
                assert(idx[i] < idx[j]);
            } else {
                assert(idx[j] < idx[i]);
            }
            assert(before[idx[i]] == w[i]);
            assert(before[idx[j]] == w[j]);
        } else if i < after.len() - 1 {
            assert(after[i] == w[i]);
        } else if j < after.len() - 1 {
            assert(after[j] == w[j]);
        }
    }
}

/// Law: a snapshot that is empty finds nothing.
pub proof fn law_empty_finds_nothing(uri: Seq<char>)
    ensures
        find_by_uri(Seq::<Document>::empty(), uri) is None,
{
}

/// Taking out the documents named `uri` twice takes out no more than once.
proof fn lemma_without_uri_twice(docs: Seq<Document>, uri: Seq<char>)
    ensures
        without_uri(without_uri(docs, uri), uri) == without_uri(docs, uri),
    decreases docs.len(),
{
    let pred = named_otherwise(uri);
    if docs.len() == 0 {
        reveal(Seq::filter);
    } else {
        lemma_without_uri_twice(docs.drop_last(), uri);
        assert(docs.drop_last().push(docs.last()) =~= docs);
        docs.drop_last().lemma_filter_push(docs.last(), pred);
        let w = without_uri(docs.drop_last(), uri);
        if pred(docs.last()) {
            w.lemma_filter_push(docs.last(), pred);
        }
    }
}

/// Law: replacing the document `uri` twice, with `first` and then `second`,
/// leaves the documents as one replacement with `second` does.
pub proof fn law_replace_twice(
    before: Seq<Document>,
    middle: Seq<Document>,
    after: Seq<Document>,
    uri: Seq<char>,
    first: Seq<char>,
    second: Seq<char>,
)
    requires
        replaced(before, middle, uri, first),
        replaced(middle, after, uri, second),
    ensures
        replaced(before, after, uri, second),
{
    let pred = named_otherwise(uri);
    assert(middle.drop_last().push(middle.last()) =~= middle);
    middle.drop_last().lemma_filter_push(middle.last(), pred);
    lemma_without_uri_twice(before, uri);
}

/// Whether some document has the identifier `uri`.
pub open spec fn has_uri(docs: Seq<Document>, uri: Seq<char>) -> bool {
    exists|i: int| 0 <= i < docs.len() && (#[trigger] docs[i]).uri@ == uri
}

/// The identifiers of the documents.
pub open spec fn uri_set(docs: Seq<Document>) -> Set<Seq<char>> {
    Set::new(|uri: Seq<char>| has_uri(docs, uri))
}

/// A document with an identifier is found exactly when one is there.
proof fn lemma_find_iff_has_uri(docs: Seq<Document>, uri: Seq<char>)
    ensures
        find_by_uri(docs, uri) is Some <==> has_uri(docs, uri),
    decreases docs.len(),
{
    if docs.len() > 0 {
        let init = docs.drop_last();
        lemma_find_iff_has_uri(init, uri);
        if has_uri(init, uri) {
            let i = choose|i: int| 0 <= i < init.len() && (#[trigger] init[i]).uri@ == uri;
            assert(docs[i] == init[i]);
        }
        if has_uri(docs, uri) {
            let i = choose|i: int| 0 <= i < docs.len() && (#[trigger] docs[i]).uri@ == uri;
            if i < docs.len() - 1 {
                assert(init[i] == docs[i]);
            }
        }
        if docs.last().uri@ == uri {
            assert(docs[docs.len() - 1] == docs.last());
        }
    }
}

/// Law: after a document is opened or changed, the identifiers are those
/// before together with its own.
pub proof fn law_update_uri_set(
    before: Seq<Document>,
    after: Seq<Document>,
    uri: Seq<char>,
    text: Seq<char>,
)
    requires
        replaced(before, after, uri, text),
    ensures
        uri_set(after) == uri_set(before).insert(uri),
{
    assert forall|v: Seq<char>| uri_set(after).contains(v) <==> uri_set(before).insert(uri).contains(v) by {
        lemma_find_iff_has_uri(after, v);
        lemma_find_iff_has_uri(before, v);
        if v == uri {
            law_update_then_find(before, after, uri, text);
        } else {
            law_update_keeps_others(before, after, uri, text, v);
        }
    }
    assert(uri_set(after) =~= uri_set(before).insert(uri));
}

} // verus!
