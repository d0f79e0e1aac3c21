//! Absolute URLs as the url crate (re-exported by reqwest) resolves them.
//! The library only ever reads a URL's serialized form, so the wrappers
//! hand that form out as a plain string.

use vstd::prelude::*;

verus! {

/// What url::Url::parse makes of a string: its normalized serialization,
/// or nothing where it is not an absolute URL.
pub uninterp spec fn url_normal(s: Seq<char>) -> Option<Seq<char>>;

/// What resolving the reference `rel` against the absolute URL `base`
/// yields: the serialization of the joined URL, or nothing where `base` is
/// not an absolute URL or the reference cannot be resolved against it.
pub uninterp spec fn url_joined(base: Seq<char>, rel: Seq<char>) -> Option<Seq<char>>;

/// Whether the string parses as an HTTP URI that carries no authority (no
/// host part). The SigV4 signer refuses to work on such a request line;
/// see the sigv4 module.
pub uninterp spec fn uri_authority_missing(s: Seq<char>) -> bool;

/// Relies on http::Uri's FromStr and Uri::authority: whether the parse
/// succeeds, and whether the parsed URI has an authority, are functions of
/// the string alone.
#[verifier::external_body]
pub fn uri_authority_missing_check(s: &str) -> (r: bool)
    ensures
        r == uri_authority_missing(s@),
{
    match s.parse::<http::Uri>() {
        Ok(u) => u.authority().is_none(),
        Err(_) => false,
    }
}

/// Relies on url::Url::parse and Url::as_str: the parse verdict and the
/// normalized form are a function of the string alone.
#[verifier::external_body]
pub fn parse_url(s: &str) -> (r: Result<String, String>)
    ensures
        r is Ok <==> url_normal(s@) is Some,
        r matches Ok(u) ==> url_normal(s@) == Some(u@),
{
    match reqwest::Url::parse(s) {
        Ok(u) => Ok(u.as_str().to_owned()),
        Err(e) => Err(e.to_string()),
    }
}

/// Relies on url::Url::parse, Url::join and Url::as_str: the joined URL is
/// a function of the base string and the reference alone.
#[verifier::external_body]
pub fn join_url(base: &str, rel: &str) -> (r: Result<String, String>)
    ensures
        r is Ok <==> url_joined(base@, rel@) is Some,
        r matches Ok(u) ==> url_joined(base@, rel@) == Some(u@),
{
    match reqwest::Url::parse(base) {
        Ok(b) => match b.join(rel) {
            Ok(u) => Ok(u.as_str().to_owned()),
            Err(e) => Err(e.to_string()),
        },
        Err(e) => Err(e.to_string()),
    }
}

} // verus!
