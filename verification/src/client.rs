//! The client: configuration (base URL, auth strategy, trust anchor), the
//! transport handle, and the planning of each operation's request. Planning
//! resolves the full URL, serializes the body, and injects Basic
//! credentials; SigV4 signing is applied to the planned request with
//! resolved credentials (see the sigv4 module); sending the plan and
//! reading the response back is the surrounding runtime's part.

use vstd::prelude::*;
use crate::auth::{basic_auth_header_value, basic_auth_value, Auth, SpecAuth};
use crate::error::ElasticSearchError;
use crate::json::{json_bytes, json_to_bytes, Json};
use crate::request::{spec_headers, ElasticSearchMethodType, HttpRequest, SpecHeader, SpecRequest};
use crate::text::{push_str, spec_strings};
use crate::tls::{build_transport, certificate_from_der, certificate_from_pem};
use crate::urls::{join_url, parse_url, url_joined, url_normal};

verus! {

#[derive(Debug)]
struct ClientConfig {
    root_url: String,
    auth: Option<Auth>,
    cert: Option<reqwest::Certificate>,
}

#[derive(Debug)]
pub struct ElasticsearchClient {
    config: ClientConfig,
    client: reqwest::Client,
}

/// The headers an auth strategy adds at planning time: Basic credentials
/// are a header; SigV4 signs the finished plan instead, and no strategy
/// adds nothing.
pub open spec fn spec_auth_headers(auth: Option<SpecAuth>) -> Seq<SpecHeader> {
    match auth {
        Some(SpecAuth::Basic(b)) => seq![
            SpecHeader {
                name: "authorization"@,
                value: basic_auth_value(b.username, b.password),
                sensitive: true,
            },
        ],
        _ => Seq::empty(),
    }
}

/// The header that accompanies a JSON body.
pub open spec fn spec_body_headers(has_body: bool) -> Seq<SpecHeader> {
    if has_body {
        seq![SpecHeader { name: "content-type"@, value: "application/json"@, sensitive: false }]
    } else {
        Seq::empty()
    }
}

/// A planned, not yet signed, not yet sent request.
pub open spec fn spec_planned(
    method: ElasticSearchMethodType,
    url: Seq<char>,
    auth: Option<SpecAuth>,
    body: Option<Seq<u8>>,
) -> SpecRequest {
    SpecRequest {
        method,
        url,
        headers: spec_body_headers(body is Some) + spec_auth_headers(auth),
        body,
    }
}

/// The view of an optional body.
pub open spec fn spec_opt_bytes(b: Option<Vec<u8>>) -> Option<Seq<u8>> {
    match b {
        Some(v) => Some(v@),
        None => None,
    }
}

/// The index and alias names of a search, joined with commas.
pub open spec fn spec_joined_names(names: Seq<Seq<char>>) -> Seq<char>
    decreases names.len(),
{
    if names.len() == 0 {
        Seq::empty()
    } else if names.len() == 1 {
        names[0]
    } else {
        spec_joined_names(names.drop_last()) + ","@ + names.last()
    }
}

/// The path of a search scoped to `names`: every index where the list is
/// empty, else the comma-joined list, followed by the search endpoint.
pub open spec fn spec_search_path(names: Seq<Seq<char>>) -> Seq<char> {
    (if names.len() == 0 {
        "*"@
    } else {
        spec_joined_names(names)
    }) + "/_search"@
}

/// The catalog endpoint for indices.
pub open spec fn indices_path() -> Seq<char> {
    "_cat/indices?format=json"@
}

/// The catalog endpoint for aliases.
pub open spec fn aliases_path() -> Seq<char> {
    "_cat/aliases?format=json"@
}

impl ElasticsearchClient {
    pub closed spec fn spec_root_url(&self) -> Seq<char> {
        self.config.root_url@
    }

    pub closed spec fn spec_auth(&self) -> Option<SpecAuth> {
        match self.config.auth {
            Some(a) => Some(a@),
            None => None,
        }
    }

    pub closed spec fn spec_cert(&self) -> Option<reqwest::Certificate> {
        self.config.cert
    }

    /// Builds a client for the given base URL, unauthenticated and trusting
    /// the system roots. Fails on a string that is not an absolute URL, or
    /// where the transport cannot be built.
    pub fn new(root_url: String) -> (r: Result<Self, ElasticSearchError>)
        ensures
            match r {
                Ok(c) => {
                    &&& url_normal(root_url@) is Some
                    &&& c.spec_root_url() == root_url@
                    &&& c.spec_auth() is None
                    &&& c.spec_cert() is None
                },
                Err(e) => {
                    if url_normal(root_url@) is None {
                        e.message@ == "invalid elasticsearch url"@
                    } else {
                        e.message@ == "failed to build http transport"@
                    }
                },
            },
    {
        match parse_url(root_url.as_str()) {
            Ok(_) => {},
            Err(cause) => {
                return Err(
                    ElasticSearchError::with_cause("invalid elasticsearch url".to_owned(), cause),
                );
            },
        };
        let client = match build_transport(None) {
            Ok(c) => c,
            Err(cause) => {
                return Err(
                    ElasticSearchError::with_cause(
                        "failed to build http transport".to_owned(),
                        cause,
                    ),
                );
            },
        };
        Ok(ElasticsearchClient { config: ClientConfig { root_url, auth: None, cert: None }, client })
    }

    /// Replaces the auth strategy; nothing is validated.
    pub fn use_auth(&mut self, auth: Auth)
        ensures
            final(self).spec_auth() == Some(auth@),
            final(self).spec_root_url() == old(self).spec_root_url(),
            final(self).spec_cert() == old(self).spec_cert(),
    {
        self.config.auth = Some(auth);
    }

    /// Clears the auth strategy; requests then go out unauthenticated.
    pub fn use_no_auth(&mut self)
        ensures
            final(self).spec_auth() is None,
            final(self).spec_root_url() == old(self).spec_root_url(),
            final(self).spec_cert() == old(self).spec_cert(),
    {
        self.config.auth = None;
    }

    /// Stores the trust anchor and rebuilds the transport around it, as
    /// one step: on failure the configuration is left as it was and the
    /// build's complaint comes back.
    fn install_anchor(&mut self, certificate: reqwest::Certificate) -> (r: Result<(), String>)
        ensures
            r is Ok ==> final(self).spec_cert() == Some(certificate),
            r is Err ==> final(self).spec_cert() == old(self).spec_cert(),
            final(self).spec_root_url() == old(self).spec_root_url(),
            final(self).spec_auth() == old(self).spec_auth(),
    {
        let client = match build_transport(Some(&certificate)) {
            Ok(c) => c,
            Err(cause) => {
                return Err(cause);
            },
        };
        self.config.cert = Some(certificate);
        self.client = client;
        Ok(())
    }

    /// Installs an already parsed trust anchor and rebuilds the transport
    /// around it, as one step: on failure the configuration is left as it
    /// was.
    pub fn use_custom_certificate(&mut self, certificate: reqwest::Certificate) -> (r: Result<
        (),
        ElasticSearchError,
    >)
        ensures
            r is Ok ==> final(self).spec_cert() == Some(certificate),
            r matches Err(e) ==> final(self).spec_cert() == old(self).spec_cert()
                && e.message@ == "failed to build http transport"@ && e.spec_causes().len() == 1,
            final(self).spec_root_url() == old(self).spec_root_url(),
            final(self).spec_auth() == old(self).spec_auth(),
    {
        match self.install_anchor(certificate) {
            Ok(()) => Ok(()),
            Err(cause) => Err(
                ElasticSearchError::with_cause("failed to build http transport".to_owned(), cause),
            ),
        }
    }

    /// Takes PEM bytes as the trust anchor and installs it, rebuilding the
    /// transport in the same step — under the rustls backend that rebuild
    /// is where the bytes are actually parsed, so bytes that are not a
    /// certificate fail here, with a certificate error, and change
    /// nothing.
    pub fn use_custom_pem_certificate_from_buf(&mut self, buffer: &[u8]) -> (r: Result<
        (),
        ElasticSearchError,
    >)
        ensures
            r is Ok ==> final(self).spec_cert() is Some,
            r matches Err(e) ==> final(self).spec_cert() == old(self).spec_cert()
                && e.message@ == "invalid pem certificate"@ && e.spec_causes().len() == 1,
            final(self).spec_root_url() == old(self).spec_root_url(),
            final(self).spec_auth() == old(self).spec_auth(),
    {
        let cert = match certificate_from_pem(buffer) {
            Ok(c) => c,
            Err(cause) => {
                return Err(
                    ElasticSearchError::with_cause("invalid pem certificate".to_owned(), cause),
                );
            },
        };
        match self.install_anchor(cert) {
            Ok(()) => Ok(()),
            Err(cause) => Err(
                ElasticSearchError::with_cause("invalid pem certificate".to_owned(), cause),
            ),
        }
    }

    /// Takes DER bytes as the trust anchor and installs it, rebuilding the
    /// transport in the same step — under the rustls backend that rebuild
    /// is where the bytes are actually parsed, so bytes that are not a
    /// certificate fail here, with a certificate error, and change
    /// nothing.
    pub fn use_custom_der_certificate_from_buf(&mut self, buffer: &[u8]) -> (r: Result<
        (),
        ElasticSearchError,
    >)
        ensures
            r is Ok ==> final(self).spec_cert() is Some,
            r matches Err(e) ==> final(self).spec_cert() == old(self).spec_cert()
                && e.message@ == "invalid der certificate"@ && e.spec_causes().len() == 1,
            final(self).spec_root_url() == old(self).spec_root_url(),
            final(self).spec_auth() == old(self).spec_auth(),
    {
        let cert = match certificate_from_der(buffer) {
            Ok(c) => c,
            Err(cause) => {
                return Err(
                    ElasticSearchError::with_cause("invalid der certificate".to_owned(), cause),
                );
            },
        };
        match self.install_anchor(cert) {
            Ok(()) => Ok(()),
            Err(cause) => Err(
                ElasticSearchError::with_cause("invalid der certificate".to_owned(), cause),
            ),
        }
    }

    /// Drops the custom trust anchor and rebuilds the transport on the
    /// system roots alone, as one step.
    pub fn use_default_certificates(&mut self) -> (r: Result<(), ElasticSearchError>)
        ensures
            r is Ok ==> final(self).spec_cert() is None,
            r matches Err(e) ==> final(self).spec_cert() == old(self).spec_cert()
                && e.message@ == "failed to build http transport"@,
            final(self).spec_root_url() == old(self).spec_root_url(),
            final(self).spec_auth() == old(self).spec_auth(),
    {
        let client = match build_transport(None) {
            Ok(c) => c,
            Err(cause) => {
                return Err(
                    ElasticSearchError::with_cause(
                        "failed to build http transport".to_owned(),
                        cause,
                    ),
                );
            },
        };
        self.config.cert = None;
        self.client = client;
        Ok(())
    }

    /// The transport that sends a planned request.
    pub fn transport(&self) -> &reqwest::Client {
        &self.client
    }

    /// Whether a custom trust anchor is installed.
    pub fn has_custom_certificate(&self) -> (r: bool)
        ensures
            r == (self.spec_cert() is Some),
    {
        self.config.cert.is_some()
    }

    /// The base URL as configured.
    pub fn root_url(&self) -> (r: &str)
        ensures
            r@ == self.spec_root_url(),
    {
        self.config.root_url.as_str()
    }

    /// The auth strategy as configured.
    pub fn auth(&self) -> (r: &Option<Auth>)
        ensures
            match *r {
                Some(a) => self.spec_auth() == Some(a@),
                None => self.spec_auth() is None,
            },
    {
        &self.config.auth
    }

    /// Adds the headers of the configured strategy to a planned request.
    fn apply_auth(&self, req: &mut HttpRequest)
        ensures
            final(req)@.headers == old(req)@.headers + spec_auth_headers(self.spec_auth()),
            final(req)@.method == old(req)@.method,
            final(req)@.url == old(req)@.url,
            final(req)@.body == old(req)@.body,
    {
        match &self.config.auth {
            Some(Auth::BASIC(b)) => {
                let value = basic_auth_header_value(b);
                req.add_header("authorization".to_owned(), value, true);
                proof {
                    assert(req@.headers =~= old(req)@.headers + spec_auth_headers(
                        self.spec_auth(),
                    ));
                }
            },
            _ => {
                proof {
                    assert(req@.headers =~= old(req)@.headers + spec_auth_headers(
                        self.spec_auth(),
                    ));
                }
            },
        }
    }

    /// Assembles a plan: the request line, the body and its header, and the
    /// strategy's headers, in that order.
    fn plan(&self, method: ElasticSearchMethodType, url: String, body: Option<Vec<u8>>) -> (r:
        HttpRequest)
        ensures
            r@ == spec_planned(method, url@, self.spec_auth(), spec_opt_bytes(body)),
    {
        let ghost body_view = spec_opt_bytes(body);
        let has_body = body.is_some();
        let mut req = HttpRequest { method, url, headers: Vec::new(), body };
        proof {
            assert(req@.headers =~= Seq::<SpecHeader>::empty());
        }
        if has_body {
            req.add_header("content-type".to_owned(), "application/json".to_owned(), false);
        }
        proof {
            assert(req@.headers =~= spec_body_headers(body_view is Some));
        }
        self.apply_auth(&mut req);
        req
    }

    /// The connectivity probe: a bare request against the base URL itself.
    pub fn test_connection_request(&self) -> (r: Result<HttpRequest, ElasticSearchError>)
        ensures
            match r {
                Ok(req) => url_normal(self.spec_root_url()) matches Some(u) && req@ == spec_planned(
                    ElasticSearchMethodType::GET,
                    u,
                    self.spec_auth(),
                    None,
                ),
                Err(e) => url_normal(self.spec_root_url()) is None && e.message@
                    == "invalid elasticsearch url"@,
            },
    {
        let url = match parse_url(self.config.root_url.as_str()) {
            Ok(u) => u,
            Err(cause) => {
                return Err(
                    ElasticSearchError::with_cause("invalid elasticsearch url".to_owned(), cause),
                );
            },
        };
        Ok(self.plan(ElasticSearchMethodType::GET, url, None))
    }

    /// The catalog request for the index listing.
    pub fn get_indicies_request(&self) -> (r: Result<HttpRequest, ElasticSearchError>)
        ensures
            match r {
                Ok(req) => url_joined(self.spec_root_url(), indices_path()) matches Some(u) && req@
                    == spec_planned(ElasticSearchMethodType::GET, u, self.spec_auth(), None),
                Err(e) => url_joined(self.spec_root_url(), indices_path()) is None && e.message@
                    == "invalid elasticsearch url"@,
            },
    {
        let url = match join_url(self.config.root_url.as_str(), "_cat/indices?format=json") {
            Ok(u) => u,
            Err(cause) => {
                return Err(
                    ElasticSearchError::with_cause("invalid elasticsearch url".to_owned(), cause),
                );
            },
        };
        Ok(self.plan(ElasticSearchMethodType::GET, url, None))
    }

    /// The catalog request for the alias listing.
    pub fn get_aliases_request(&self) -> (r: Result<HttpRequest, ElasticSearchError>)
        ensures
            match r {
                Ok(req) => url_joined(self.spec_root_url(), aliases_path()) matches Some(u) && req@
                    == spec_planned(ElasticSearchMethodType::GET, u, self.spec_auth(), None),
                Err(e) => url_joined(self.spec_root_url(), aliases_path()) is None && e.message@
                    == "invalid elasticsearch url"@,
            },
    {
        let url = match join_url(self.config.root_url.as_str(), "_cat/aliases?format=json") {
            Ok(u) => u,
            Err(cause) => {
                return Err(
                    ElasticSearchError::with_cause("invalid elasticsearch url".to_owned(), cause),
                );
            },
        };
        Ok(self.plan(ElasticSearchMethodType::GET, url, None))
    }

    /// The generic escape hatch: a request for the given method against the
    /// given path, with the body serialized verbatim.
    pub fn operation_request(
        &self,
        method_type: ElasticSearchMethodType,
        path: &str,
        body: Option<&Json>,
    ) -> (r: Result<HttpRequest, ElasticSearchError>)
        ensures
            match r {
                Ok(req) => url_joined(self.spec_root_url(), path@) matches Some(u) && req@
                    == spec_planned(
                    method_type,
                    u,
                    self.spec_auth(),
                    match body {
                        Some(j) => Some(json_bytes(*j)),
                        None => None,
                    },
                ),
                Err(e) => url_joined(self.spec_root_url(), path@) is None && e.message@
                    == "invalid elasticsearch url"@,
            },
    {
        let url = match join_url(self.config.root_url.as_str(), path) {
            Ok(u) => u,
            Err(cause) => {
                return Err(
                    ElasticSearchError::with_cause("invalid elasticsearch url".to_owned(), cause),
                );
            },
        };
        let bytes = match body {
            Some(j) => Some(json_to_bytes(j)),
            None => None,
        };
        Ok(self.plan(method_type, url, bytes))
    }

    /// The search request, scoped to the given index and alias names (all
    /// indices where the list is empty), with the optional query body.
    pub fn search_request(&self, indices_and_aliases: &Vec<String>, body: Option<&Json>) -> (r:
        Result<HttpRequest, ElasticSearchError>)
        ensures
            match r {
                Ok(req) => url_joined(
                    self.spec_root_url(),
                    spec_search_path(spec_strings(indices_and_aliases@)),
                ) matches Some(u) && req@ == spec_planned(
                    ElasticSearchMethodType::POST,
                    u,
                    self.spec_auth(),
                    match body {
                        Some(j) => Some(json_bytes(*j)),
                        None => None,
                    },
                ),
                Err(e) => url_joined(
                    self.spec_root_url(),
                    spec_search_path(spec_strings(indices_and_aliases@)),
                ) is None && e.message@ == "invalid elasticsearch url"@,
            },
    {
        let ghost names = spec_strings(indices_and_aliases@);
        let mut path = String::new();
        if indices_and_aliases.len() == 0 {
            push_str(&mut path, "*");
        } else {
            let mut i: usize = 0;
            while i < indices_and_aliases.len()
                invariant
                    i <= names.len(),
                    names == spec_strings(indices_and_aliases@),
                    path@ == spec_joined_names(names.take(i as int)),
                decreases indices_and_aliases@.len() - i,
            {
                if i > 0 {
                    push_str(&mut path, ",");
                }
                push_str(&mut path, indices_and_aliases[i].as_str());
                proof {
                    assert(names.take(i + 1).drop_last() =~= names.take(i as int));
                    assert(names.take(i + 1).last() == names[i as int]);
                    assert(path@ =~= spec_joined_names(names.take(i + 1)));
                }
                i = i + 1;
            }
            proof {
                assert(names.take(names.len() as int) =~= names);
            }
        }
        push_str(&mut path, "/_search");
        proof {
            assert(path@ =~= spec_search_path(names));
        }
        let url = match join_url(self.config.root_url.as_str(), path.as_str()) {
            Ok(u) => u,
            Err(cause) => {
                return Err(
                    ElasticSearchError::with_cause("invalid elasticsearch url".to_owned(), cause),
                );
            },
        };
        let bytes = match body {
            Some(j) => Some(json_to_bytes(j)),
            None => None,
        };
        Ok(self.plan(ElasticSearchMethodType::POST, url, bytes))
    }
}

} // verus!
