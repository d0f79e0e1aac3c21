//! The not-yet-sent HTTP request as the library plans it: method, absolute
//! URL, headers in insertion order, and the exact body bytes. Header names
//! are kept lowercase, as the wire protocol and the signer emit them, so
//! collision checks are plain equality on names.

use vstd::prelude::*;
use crate::text::str_eq;

verus! {

#[derive(Debug, Clone, Copy, PartialEq, Eq, Structural)]
pub enum ElasticSearchMethodType {
    GET,
    POST,
    PUT,
    PATCH,
    DELETE,
}

/// The method token as it appears on the request line.
pub open spec fn spec_method_name(m: ElasticSearchMethodType) -> Seq<char> {
    match m {
        ElasticSearchMethodType::GET => "GET"@,
        ElasticSearchMethodType::POST => "POST"@,
        ElasticSearchMethodType::PUT => "PUT"@,
        ElasticSearchMethodType::PATCH => "PATCH"@,
        ElasticSearchMethodType::DELETE => "DELETE"@,
    }
}

pub fn method_name(m: ElasticSearchMethodType) -> (r: &'static str)
    ensures
        r@ == spec_method_name(m),
{
    match m {
        ElasticSearchMethodType::GET => "GET",
        ElasticSearchMethodType::POST => "POST",
        ElasticSearchMethodType::PUT => "PUT",
        ElasticSearchMethodType::PATCH => "PATCH",
        ElasticSearchMethodType::DELETE => "DELETE",
    }
}

/// One header: name, value, and whether the value is sensitive (kept out of
/// casual logging by the transport).
#[derive(Debug, Clone)]
pub struct HeaderEntry {
    pub name: String,
    pub value: String,
    pub sensitive: bool,
}

/// A header as it appears in contracts.
pub struct SpecHeader {
    pub name: Seq<char>,
    pub value: Seq<char>,
    pub sensitive: bool,
}

impl View for HeaderEntry {
    type V = SpecHeader;

    open spec fn view(&self) -> SpecHeader {
        SpecHeader { name: self.name@, value: self.value@, sensitive: self.sensitive }
    }
}

/// The headers of a request, as they appear in contracts.
pub open spec fn spec_headers(hs: Seq<HeaderEntry>) -> Seq<SpecHeader> {
    Seq::new(hs.len(), |i: int| hs[i]@)
}

/// Whether some header in `hs` is named `name`.
pub open spec fn spec_has_header(hs: Seq<SpecHeader>, name: Seq<char>) -> bool {
    exists|i: int| 0 <= i < hs.len() && hs[i].name == name
}

/// An HTTP request that has been planned but not sent.
#[derive(Debug)]
pub struct HttpRequest {
    pub method: ElasticSearchMethodType,
    pub url: String,
    pub headers: Vec<HeaderEntry>,
    pub body: Option<Vec<u8>>,
}

/// A request as it appears in contracts.
pub struct SpecRequest {
    pub method: ElasticSearchMethodType,
    pub url: Seq<char>,
    pub headers: Seq<SpecHeader>,
    pub body: Option<Seq<u8>>,
}

impl View for HttpRequest {
    type V = SpecRequest;

    open spec fn view(&self) -> SpecRequest {
        SpecRequest {
            method: self.method,
            url: self.url@,
            headers: spec_headers(self.headers@),
            body: match self.body {
                Some(b) => Some(b@),
                None => None,
            },
        }
    }
}

impl HttpRequest {
    /// Whether the request already carries a header named `name`.
    pub fn has_header(&self, name: &str) -> (r: bool)
        ensures
            r == spec_has_header(self@.headers, name@),
    {
        let mut i: usize = 0;
        while i < self.headers.len()
            invariant
                i <= self.headers@.len(),
                forall|j: int| 0 <= j < i ==> self@.headers[j].name != name@,
            decreases self.headers@.len() - i,
        {
            if str_eq(self.headers[i].name.as_str(), name) {
                proof {
                    assert(self@.headers[i as int].name == name@);
                }
                return true;
            }
            i = i + 1;
        }
        false
    }

    /// Appends a header without any collision check; planning uses it for
    /// the headers the library itself decides on.
    pub fn add_header(&mut self, name: String, value: String, sensitive: bool)
        ensures
            final(self)@.headers =~= old(self)@.headers.push(
                SpecHeader { name: name@, value: value@, sensitive },
            ),
            final(self)@.method == old(self)@.method,
            final(self)@.url == old(self)@.url,
            final(self)@.body == old(self)@.body,
    {
        self.headers.push(HeaderEntry { name, value, sensitive });
        proof {
            assert(spec_headers(self.headers@) =~= spec_headers(old(self).headers@).push(
                self.headers@.last()@,
            ));
        }
    }
}

} // verus!
