//! Document identifiers: absolute URLs held by their serialization.
use crate::text::{prefix_before, prefix_before_char};
use vstd::prelude::*;

verus! {

/// The serialization that `url::Url::parse` gives for `input`, or `None` where
/// it refuses `input`.
pub uninterp spec fn url_parse(input: Seq<char>) -> Option<Seq<char>>;

/// Calls `lsp_types::Url::parse` (the `url` crate's parser) and hands back the
/// serialization of the parsed URL.
/// Claims only that the result is `url_parse` of the input: `Some` with the
/// serialization where the parser accepts it, `None` where it refuses it.
#[verifier::external_body]
fn parse_url(input: &str) -> (res: Option<String>)
    ensures
        res is Some <==> url_parse(input@) is Some,
        res matches Some(s) ==> url_parse(input@) == Some(s@),
{
    match lsp_types::Url::parse(input) {
        Ok(url) => Some(String::from(url)),
        Err(_) => None,
    }
}

/// The scheme of a URL serialization: everything before its first `:`.
pub open spec fn scheme_of(serialization: Seq<char>) -> Seq<char> {
    prefix_before(serialization, ':')
}

/// An absolute URL that identifies a document.
#[derive(Debug, Clone, Hash)]
pub struct Uri {
    serialization: String,
}

impl View for Uri {
    type V = Seq<char>;

    closed spec fn view(&self) -> Seq<char> {
        self.serialization@
    }
}

impl Uri {
    /// Parses an absolute URL; `None` where the URL parser refuses the text.
    pub fn parse(text: &str) -> (res: Option<Uri>)
        ensures
            res is Some <==> url_parse(text@) is Some,
            res matches Some(u) ==> url_parse(text@) == Some(u@),
    {
        match parse_url(text) {
            Some(serialization) => Some(Uri { serialization }),
            None => None,
        }
    }

    /// The serialization of the URL.
    pub fn as_str(&self) -> (res: &str)
        ensures
            res@ == self@,
    {
        self.serialization.as_str()
    }

    /// Another `Uri` for the same URL.
    pub fn duplicate(&self) -> (res: Uri)
        ensures
            res@ == self@,
    {
        Uri { serialization: self.serialization.clone() }
    }

    /// The scheme of the URL, without the `:` that ends it.
    pub fn scheme(&self) -> (res: String)
        ensures
            res@ == scheme_of(self@),
    {
        prefix_before_char(self.serialization.as_str(), ':')
    }
}

impl PartialEq for Uri {
    fn eq(&self, other: &Self) -> (res: bool) {
        self.serialization == other.serialization
    }
}

impl vstd::std_specs::cmp::PartialEqSpecImpl for Uri {
    open spec fn obeys_eq_spec() -> bool {
        true
    }

    open spec fn eq_spec(&self, other: &Self) -> bool {
        self@ == other@
    }
}

impl Eq for Uri {
}

} // verus!
