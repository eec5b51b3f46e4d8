//! Base URLs and the resolution of endpoint paths against them.

use reqwest::Url;
use vstd::prelude::*;

verus! {

/// The serialization of the URL that `Url::parse` makes of `input`, or
/// `None` where it rejects `input`.
pub uninterp spec fn parsed_url(input: Seq<char>) -> Option<Seq<char>>;

/// The serialization of the URL that `Url::join` makes of `reference` on
/// the URL that `base` parses to, or `None` where `base` does not parse
/// or the join is rejected.
pub uninterp spec fn joined_url(base: Seq<char>, reference: Seq<char>) -> Option<Seq<char>>;

/// Calls `Url::parse` and hands back the serialization of the URL.
/// Trusted: the result is named `parsed_url`; nothing more is claimed.
#[verifier::external_body]
fn parse_url(input: &str) -> (parsed: Option<String>)
    ensures
        parsed.deep_view() == parsed_url(input@),
{
    match Url::parse(input) {
        Ok(url) => Some(String::from(url)),
        Err(_) => None,
    }
}

/// Calls `Url::join` on the URL that `Url::parse` makes of `base`, and
/// hands back the serialization of the joined URL.
/// Trusted: the result is named `joined_url`; nothing more is claimed.
#[verifier::external_body]
fn join_url(base: &str, reference: &str) -> (joined: Option<String>)
    ensures
        joined.deep_view() == joined_url(base@, reference@),
{
    match Url::parse(base) {
        Ok(url) => match url.join(reference) {
            Ok(joined) => Some(String::from(joined)),
            Err(_) => None,
        },
        Err(_) => None,
    }
}

/// An absolute URL in its serialized form, as the base of every endpoint.
pub struct BaseUrl {
    text: String,
}

impl View for BaseUrl {
    type V = Seq<char>;

    closed spec fn view(&self) -> Seq<char> {
        self.text@
    }
}

impl Clone for BaseUrl {
    fn clone(&self) -> (copy: Self)
        ensures
            copy@ == self@,
    {
        BaseUrl { text: self.text.clone() }
    }
}

impl BaseUrl {
    /// Parses `input` as an absolute URL and keeps its serialization.
    pub fn parse(input: &str) -> (url: Option<BaseUrl>)
        ensures
            url is Some <==> parsed_url(input@) is Some,
            url matches Some(u) ==> Some(u@) == parsed_url(input@),
    {
        match parse_url(input) {
            Some(text) => Some(BaseUrl { text }),
            None => None,
        }
    }

    /// The serialized URL.
    pub fn as_str(&self) -> (text: &str)
        ensures
            text@ == self@,
    {
        self.text.as_str()
    }

    /// Resolves `reference` against this URL.
    pub fn join(&self, reference: &str) -> (joined: Option<String>)
        ensures
            joined.deep_view() == joined_url(self@, reference@),
    {
        join_url(self.text.as_str(), reference)
    }
}

} // verus!
