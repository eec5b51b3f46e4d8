//! Requests as the client builds them, before the transport sends them.

use reqwest::header::HeaderValue;
use vstd::prelude::*;

verus! {

/// The HTTP methods that the endpoints use.
#[derive(Debug, Clone, Copy, PartialEq, Eq, Structural)]
pub enum Method {
    Get,
    Post,
    Patch,
    Delete,
}

/// One header of a request.
#[derive(Debug)]
pub struct Header {
    pub name: String,
    pub value: String,
}

/// One header as plain text.
pub struct HeaderLine {
    pub name: Seq<char>,
    pub value: Seq<char>,
}

impl View for Header {
    type V = HeaderLine;

    open spec fn view(&self) -> HeaderLine {
        HeaderLine { name: self.name@, value: self.value@ }
    }
}

/// `c` with an ASCII capital letter turned into its small letter.
pub open spec fn ascii_lower(c: char) -> char {
    if 'A' <= c && c <= 'Z' {
        ((c as u8) + 32) as char
    } else {
        c
    }
}

/// Header names are compared without regard to the case of ASCII letters.
pub open spec fn same_name(a: Seq<char>, b: Seq<char>) -> bool {
    &&& a.len() == b.len()
    &&& forall|i: int| 0 <= i < a.len() ==> ascii_lower(#[trigger] a[i]) == ascii_lower(b[i])
}

fn lower(c: char) -> (folded: char)
    ensures
        folded == ascii_lower(c),
{
    if 'A' <= c && c <= 'Z' {
        ((c as u8) + 32) as char
    } else {
        c
    }
}

/// Whether two header names are the same name.
pub fn names_match(a: &str, b: &str) -> (same: bool)
    ensures
        same == same_name(a@, b@),
{
    let n: usize = a.unicode_len();
    if n != b.unicode_len() {
        return false;
    }
    let mut i: usize = 0;
    while i < n
        invariant
            n == a@.len(),
            n == b@.len(),
            i <= n,
            forall|j: int| 0 <= j < i ==> ascii_lower(#[trigger] a@[j]) == ascii_lower(b@[j]),
        decreases n - i,
    {
        if lower(a.get_char(i)) != lower(b.get_char(i)) {
            return false;
        }
        i += 1;
    }
    true
}

/// What a request carries besides its headers.
#[derive(Debug)]
pub enum Payload<P> {
    Empty,
    Query(P),
    Json(P),
}

/// A request, with what the transport is to make of `payload` left to it.
#[derive(Debug)]
pub struct Request<P> {
    pub method: Method,
    pub url: String,
    pub headers: Vec<Header>,
    pub payload: Payload<P>,
}

/// The headers as plain text, in their order.
pub open spec fn header_lines(headers: Seq<Header>) -> Seq<HeaderLine> {
    headers.map_values(|h: Header| h@)
}

/// Whether `name` names the header that carries the credential.
pub open spec fn is_authorization(name: Seq<char>) -> bool {
    same_name(name, "Authorization"@)
}

/// The headers that carry a credential, in their order.
pub open spec fn authorizations(lines: Seq<HeaderLine>) -> Seq<HeaderLine> {
    lines.filter(|l: HeaderLine| is_authorization(l.name))
}

/// The headers that carry no credential, in their order.
pub open spec fn without_authorization(lines: Seq<HeaderLine>) -> Seq<HeaderLine> {
    lines.filter(|l: HeaderLine| !is_authorization(l.name))
}

/// The header that carries the credential `value`.
pub open spec fn credential_line(value: Seq<char>) -> HeaderLine {
    HeaderLine { name: "Authorization"@, value }
}

/// The headers with `value` as their one credential, which comes last.
pub open spec fn with_authorization(lines: Seq<HeaderLine>, value: Seq<char>) -> Seq<HeaderLine> {
    without_authorization(lines).push(credential_line(value))
}

/// The characters that a header value may hold: the tab and everything
/// from the space on but the delete character.
pub open spec fn header_value_char(c: char) -> bool {
    c == '\t' || (' ' <= c && c != '\x7f')
}

/// Whether `text` can be the value of a header.
pub open spec fn is_header_value(text: Seq<char>) -> bool {
    forall|i: int| 0 <= i < text.len() ==> header_value_char(#[trigger] text[i])
}

/// Calls `HeaderValue::from_str` and says whether it accepted `text`.
/// Trusted: it accepts exactly the strings whose bytes are all a tab or at
/// least 32 and not 127; a character beyond ASCII is encoded in bytes of
/// 128 and more, so only its ASCII characters can make a string fail.
#[verifier::external_body]
pub(crate) fn header_value_accepts(text: &str) -> (accepted: bool)
    ensures
        accepted == is_header_value(text@),
{
    HeaderValue::from_str(text).is_ok()
}

proof fn lemma_filter_push<A>(s: Seq<A>, x: A, keep: spec_fn(A) -> bool)
    ensures
        s.push(x).filter(keep) == (if keep(x) {
            s.filter(keep).push(x)
        } else {
            s.filter(keep)
        }),
{
    reveal(Seq::filter);
    assert(s.push(x).drop_last() == s);
}

impl Header {
    /// Whether this header carries the credential.
    pub fn is_authorization(&self) -> (credential: bool)
        ensures
            credential == is_authorization(self.name@),
    {
        names_match(self.name.as_str(), "Authorization")
    }
}

impl<P> Request<P> {
    /// A request without headers.
    pub fn new(method: Method, url: String, payload: Payload<P>) -> (request: Request<P>)
        ensures
            request.method == method,
            request.url == url,
            request.headers@.len() == 0,
            request.payload == payload,
    {
        Request { method, url, headers: Vec::new(), payload }
    }

    /// The request with `value` as its one credential: every header named
    /// `Authorization` is dropped and one with `value` is put last.
    pub fn authorized(self, value: String) -> (signed: Request<P>)
        ensures
            signed.method == self.method,
            signed.url == self.url,
            signed.payload == self.payload,
            header_lines(signed.headers@) == with_authorization(header_lines(self.headers@), value@),
    {
        let Request { method, url, headers, payload } = self;
        Request { method, url, headers: authorize(headers, value), payload }
    }
}

/// The headers with `value` as their one credential: every header named
/// `Authorization` is dropped and one with `value` is put last.
pub fn authorize(headers: Vec<Header>, value: String) -> (signed: Vec<Header>)
    ensures
        header_lines(signed@) == with_authorization(header_lines(headers@), value@),
{
    let mut kept: Vec<Header> = Vec::new();
    let mut i: usize = 0;
    while i < headers.len()
        invariant
            i <= headers.len(),
            header_lines(kept@) == without_authorization(header_lines(headers@.take(i as int))),
        decreases headers.len() - i,
    {
        let header = &headers[i];
        proof {
            assert(headers@.take(i + 1) == headers@.take(i as int).push(headers@[i as int]));
            assert(header_lines(headers@.take(i + 1)) == header_lines(
                headers@.take(i as int),
            ).push(header@));
            lemma_filter_push(
                header_lines(headers@.take(i as int)),
                header@,
                |l: HeaderLine| !is_authorization(l.name),
            );
        }
        if !header.is_authorization() {
            let copy = Header { name: header.name.clone(), value: header.value.clone() };
            assert(header_lines(kept@.push(copy)) == header_lines(kept@).push(copy@));
            kept.push(copy);
        }
        i += 1;
    }
    assert(headers@.take(i as int) == headers@);
    let credential = Header { name: "Authorization".to_owned(), value };
    assert(header_lines(kept@.push(credential)) == header_lines(kept@).push(credential@));
    kept.push(credential);
    kept
}

/// A request that was given its credential carries exactly one, and it is
/// the one that was given.
pub proof fn lemma_one_authorization(lines: Seq<HeaderLine>, value: Seq<char>)
    ensures
        authorizations(with_authorization(lines, value)) == seq![credential_line(value)],
{
    let keep = |l: HeaderLine| is_authorization(l.name);
    let drop = |l: HeaderLine| !is_authorization(l.name);
    let credential = credential_line(value);
    let rest = without_authorization(lines);
    lemma_filter_push(rest, credential, keep);
    assert(is_authorization("Authorization"@));
    assert forall|i: int| 0 <= i < rest.len() implies !keep(#[trigger] rest[i]) by {
        lines.lemma_filter_pred(drop, i);
    }
    assert(rest.all(|l: HeaderLine| !keep(l)));
    rest.lemma_all_neg_filter_empty(keep);
    assert(rest.filter(keep) == Seq::<HeaderLine>::empty());
}

} // verus!
