//! Requests for a language feature on one document, and providers that answer them.
use crate::protocol::Options;
use crate::workspace::{Document, Snapshot};
use lsp_types::ClientCapabilities;
use std::path::{Path, PathBuf};
use std::sync::Arc;
use vstd::prelude::*;

verus! {

#[verifier::external_type_specification]
#[verifier::external_body]
pub struct ExClientCapabilities(ClientCapabilities);

/// The document that a request is about, in the snapshot it belongs to.
#[derive(Debug, PartialEq, Eq, Clone)]
pub struct DocumentView {
    pub snapshot: Arc<Snapshot>,
    pub current: Arc<Document>,
}

impl DocumentView {
    /// The view of `current` in `snapshot`.
    pub fn analyze(
        snapshot: Arc<Snapshot>,
        current: Arc<Document>,
        _options: &Options,
        _current_dir: &Path,
    ) -> (res: Self)
        ensures
            res.snapshot == snapshot,
            res.current == current,
    {
        Self { snapshot, current }
    }
}

/// A request for a feature, with what answering it may need.
#[derive(Clone)]
pub struct FeatureRequest<P> {
    pub params: P,
    pub view: DocumentView,
    pub client_capabilities: Arc<ClientCapabilities>,
    pub options: Options,
    pub current_dir: Arc<PathBuf>,
}

impl<P> FeatureRequest<P> {
    /// The snapshot that the request was made in.
    pub fn snapshot(&self) -> (res: &Snapshot)
        ensures
            *res == *self.view.snapshot,
    {
        &self.view.snapshot
    }

    /// The document that the request is about.
    pub fn current(&self) -> (res: &Document)
        ensures
            *res == *self.view.current,
    {
        &self.view.current
    }
}

/// Answers requests with parameters `P` by an `O`.
pub trait FeatureProvider<P, O> {
    /// `out` is an answer that the provider may give to `req`; unless a
    /// provider says more, any answer.
    open spec fn produces(&self, req: FeatureRequest<P>, out: O) -> bool {
        true
    }

    fn execute(&self, req: &FeatureRequest<P>) -> (out: O)
        ensures
            self.produces(*req, out),
    ;
}

/// The concatenation of the lists, in order.
pub open spec fn concat_all<O>(lists: Seq<Seq<O>>) -> Seq<O>
    decreases lists.len(),
{
    if lists.len() == 0 {
        Seq::empty()
    } else {
        concat_all(lists.drop_last()) + lists.last()
    }
}

/// `outs` holds, for each provider in order, an answer it may give to `req`.
pub open spec fn answers_of<P, O>(
    providers: Seq<Box<dyn FeatureProvider<P, O>>>,
    req: FeatureRequest<P>,
    outs: Seq<O>,
) -> bool {
    &&& outs.len() == providers.len()
    &&& forall|i: int| 0 <= i < outs.len() ==> #[trigger] providers[i].produces(req, outs[i])
}

/// The views of a sequence of vectors.
pub open spec fn vec_views<O>(vs: Seq<Vec<O>>) -> Seq<Seq<O>> {
    vs.map_values(|v: Vec<O>| v@)
}

/// Answers with the answers of all its providers, one after the other.
#[derive(Default)]
#[verifier::reject_recursive_types(P)]
#[verifier::reject_recursive_types(O)]
pub struct ConcatProvider<P, O> {
    providers: Vec<Box<dyn FeatureProvider<P, Vec<O>>>>,
}

impl<P, O> ConcatProvider<P, O> {
    /// The providers, in the order they are asked.
    pub closed spec fn providers(&self) -> Seq<Box<dyn FeatureProvider<P, Vec<O>>>> {
        self.providers@
    }

    pub fn new(providers: Vec<Box<dyn FeatureProvider<P, Vec<O>>>>) -> (res: Self)
        ensures
            res.providers() == providers@,
    {
        Self { providers }
    }
}

impl<P, O> FeatureProvider<P, Vec<O>> for ConcatProvider<P, O> {
    /// Each provider was asked once, in order, and the answer is their answers
    /// concatenated.
    open spec fn produces(&self, req: FeatureRequest<P>, out: Vec<O>) -> bool {
        exists|outs: Seq<Vec<O>>|
            #[trigger] answers_of(self.providers(), req, outs) && out@ == concat_all(vec_views(outs))
    }

    fn execute(&self, req: &FeatureRequest<P>) -> (out: Vec<O>) {
        let mut items: Vec<O> = Vec::new();
        let ghost mut outs: Seq<Vec<O>> = Seq::empty();
        let n = self.providers.len();
        for i in 0..n
            invariant
                n == self.providers@.len(),
                outs.len() == i,
                forall|k: int| 0 <= k < i ==> #[trigger] self.providers@[k].produces(*req, outs[k]),
                items@ == concat_all(vec_views(outs)),
        {
            let mut answer = self.providers[i].execute(req);
            let ghost answer_value = answer;
            let ghost before = items@;
            items.append(&mut answer);
            proof {
                let next = outs.push(answer_value);
                assert(vec_views(next).drop_last() =~= vec_views(outs));
                assert(vec_views(next).last() == answer_value@);
                outs = next;
            }
        }
        proof {
            assert(answers_of(self.providers(), *req, outs));
        }
        items
    }
}

/// Answers with the first answer of its providers that is `Some`.
#[derive(Default)]
#[verifier::reject_recursive_types(P)]
#[verifier::reject_recursive_types(O)]
pub struct ChoiceProvider<P, O> {
    providers: Vec<Box<dyn FeatureProvider<P, Option<O>>>>,
}

/// `outs` are the answers of the first providers to `req`, in order, up to the
/// first `Some`, and `out` is that `Some`, or `None` when every provider
/// answered `None`.
pub open spec fn first_answer<P, O>(
    providers: Seq<Box<dyn FeatureProvider<P, Option<O>>>>,
    req: FeatureRequest<P>,
    outs: Seq<Option<O>>,
    out: Option<O>,
) -> bool {
    &&& outs.len() <= providers.len()
    &&& forall|i: int| 0 <= i < outs.len() ==> #[trigger] providers[i].produces(req, outs[i])
    &&& forall|i: int| 0 <= i < outs.len() - 1 ==> (#[trigger] outs[i]) is None
    &&& match out {
        Some(_) => outs.len() > 0 && outs.last() == out,
        None => outs.len() == providers.len() && forall|i: int| 0 <= i < outs.len() ==> (#[trigger] outs[i]) is None,
    }
}

impl<P, O> ChoiceProvider<P, O> {
    /// The providers, in the order they are asked.
    pub closed spec fn providers(&self) -> Seq<Box<dyn FeatureProvider<P, Option<O>>>> {
        self.providers@
    }

    pub fn new(providers: Vec<Box<dyn FeatureProvider<P, Option<O>>>>) -> (res: Self)
        ensures
            res.providers() == providers@,
    {
        Self { providers }
    }
}

impl<P, O> FeatureProvider<P, Option<O>> for ChoiceProvider<P, O> {
    /// The providers were asked in order until one answered `Some`, and the
    /// answer is that one, or `None` when none did.
    open spec fn produces(&self, req: FeatureRequest<P>, out: Option<O>) -> bool {
        exists|outs: Seq<Option<O>>| #[trigger] first_answer(self.providers(), req, outs, out)
    }

    fn execute(&self, req: &FeatureRequest<P>) -> (out: Option<O>) {
        let ghost mut outs: Seq<Option<O>> = Seq::empty();
        let n = self.providers.len();
        for i in 0..n
            invariant
                n == self.providers@.len(),
                outs.len() == i,
                forall|k: int| 0 <= k < i ==> #[trigger] self.providers@[k].produces(*req, outs[k]),
                forall|k: int| 0 <= k < i ==> (#[trigger] outs[k]) is None,
        {
            let item = self.providers[i].execute(req);
            proof {
                outs = outs.push(item);
            }
            if item.is_some() {
                proof {
                    assert(first_answer(self.providers(), *req, outs, item));
                }
                return item;
            }
        }
        proof {
            assert(first_answer(self.providers(), *req, outs, None));
        }
        None
    }
}

/// Law: a concatenating provider with no providers answers with an empty list.
pub proof fn law_concat_of_none_is_empty<P, O>(
    provider: ConcatProvider<P, O>,
    req: FeatureRequest<P>,
    out: Vec<O>,
)
    requires
        provider.providers().len() == 0,
        provider.produces(req, out),
    ensures
        out@.len() == 0,
{
    let outs = choose|outs: Seq<Vec<O>>|
        #[trigger] answers_of(provider.providers(), req, outs) && out@ == concat_all(vec_views(outs));
    assert(vec_views(outs).len() == 0);
}

/// Law: a choosing provider answers `None` only when every provider, asked in
/// turn, answered `None`.
pub proof fn law_choice_none_means_all_none<P, O>(
    provider: ChoiceProvider<P, O>,
    req: FeatureRequest<P>,
)
    requires
        provider.produces(req, None),
    ensures
        exists|outs: Seq<Option<O>>|
            #[trigger] answers_of(provider.providers(), req, outs)
            && forall|i: int| 0 <= i < outs.len() ==> (#[trigger] outs[i]) is None,
{
    let outs = choose|outs: Seq<Option<O>>| #[trigger] first_answer(provider.providers(), req, outs, None);
    assert(answers_of(provider.providers(), req, outs));
}

} // verus!
