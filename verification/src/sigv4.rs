//! AWS SigV4 header signing. The signature computation itself is done by
//! the aws-sigv4 crate behind trusted wrappers; everything around it is
//! verified: assembling the inputs, refusing query-parameter placement, the
//! collision check, and the insertion of the signed headers.
//!
//! The signer is configured for header placement with a SHA-256 payload
//! checksum, over the request's method, URL, current header set and exact
//! body bytes (an absent body signs as the empty byte sequence). Credential
//! resolution is I/O and stays with the caller: signing takes already
//! resolved credentials and an explicit timestamp, which also makes it
//! reproducible.

use vstd::prelude::*;
use aws_credential_types::Credentials;
use aws_sigv4::http_request::{
    sign, PayloadChecksumKind, SignableBody, SignableRequest, SignatureLocation,
    SigningInstructions, SigningParams, SigningSettings,
};
use aws_sigv4::sign::v4::SigningParams as V4SigningParams;
use crate::auth::{spec_opt_str, AwsSigv4};
use crate::error::ElasticSearchError;
use crate::request::{
    method_name, spec_has_header, spec_headers, spec_method_name, HeaderEntry, HttpRequest,
    SpecHeader, SpecRequest,
};
use crate::urls::{uri_authority_missing, uri_authority_missing_check};

verus! {

/// Resolved AWS credentials, as the signer consumes them. Resolving them
/// (environment, profile files, instance metadata) is the caller's side.
#[derive(Debug, Clone)]
pub struct AwsCredentials {
    pub access_key_id: String,
    pub secret_access_key: String,
    pub session_token: Option<String>,
}

pub struct SpecAwsCredentials {
    pub access_key_id: Seq<char>,
    pub secret_access_key: Seq<char>,
    pub session_token: Option<Seq<char>>,
}

impl View for AwsCredentials {
    type V = SpecAwsCredentials;

    open spec fn view(&self) -> SpecAwsCredentials {
        SpecAwsCredentials {
            access_key_id: self.access_key_id@,
            secret_access_key: self.secret_access_key@,
            session_token: spec_opt_str(self.session_token),
        }
    }
}

/// The AWS service identifier the cluster is signed for.
pub open spec fn aws_service_name() -> Seq<char> {
    "es"@
}

/// The last second of the year 9999, the latest signing time the signer's
/// date handling can represent.
pub const MAX_SIGNING_EPOCH_SECS: u64 = 253402300799;

/// The headers of a request as (name, value) pairs, the form the signer
/// reads them in.
pub open spec fn spec_header_pairs(hs: Seq<SpecHeader>) -> Seq<(Seq<char>, Seq<char>)> {
    Seq::new(hs.len(), |i: int| (hs[i].name, hs[i].value))
}

#[verifier::external_type_specification]
#[verifier::external_body]
pub struct ExSigningInstructions(SigningInstructions);

/// The signed headers that a set of signing instructions would add.
pub uninterp spec fn instruction_headers(ins: SigningInstructions) -> Seq<SpecHeader>;

/// The signed query parameters that a set of signing instructions would add.
pub uninterp spec fn instruction_params(ins: SigningInstructions) -> Seq<(Seq<char>, Seq<char>)>;

/// What the SigV4 computation returns for the given credentials, region,
/// service, timestamp and request data: the headers and query parameters to
/// add, or nothing where the signer refuses the inputs.
pub uninterp spec fn sigv4_instructions(
    key: Seq<char>,
    secret: Seq<char>,
    token: Option<Seq<char>>,
    region: Seq<char>,
    service: Seq<char>,
    epoch_secs: u64,
    method: Seq<char>,
    url: Seq<char>,
    headers: Seq<(Seq<char>, Seq<char>)>,
    body: Seq<u8>,
) -> Option<(Seq<SpecHeader>, Seq<(Seq<char>, Seq<char>)>)>;

/// Relies on ToString::to_string for the message of an error value.
#[verifier::external_body]
fn err_text<E: std::fmt::Display>(e: E) -> String {
    e.to_string()
}

/// Relies on aws_sigv4::http_request::sign, with aws_sigv4::sign::v4
/// parameters built for header placement and an x-amz-content-sha256
/// payload checksum: the instructions it computes depend on the credentials,
/// region, service, signing time and request data alone, and on nothing
/// else, so two runs on the same inputs return the same instructions.
/// The requires keep out the inputs on which the signer does not return
/// normally: a URL that parses as a URI without an authority (inserting the
/// host header does not return there), and a timestamp past the year 9999
/// (the signer's date conversion, and the SystemTime addition below, do not
/// return there).
#[verifier::external_body]
fn compute_sigv4(
    key: &str,
    secret: &str,
    token: &Option<String>,
    region: &str,
    service: &str,
    epoch_secs: u64,
    method: &str,
    url: &str,
    headers: &Vec<HeaderEntry>,
    body: &Vec<u8>,
) -> (r: Result<SigningInstructions, String>)
    requires
        !uri_authority_missing(url@),
        epoch_secs <= MAX_SIGNING_EPOCH_SECS,
    ensures
        r is Ok <==> sigv4_instructions(
            key@,
            secret@,
            spec_opt_str(*token),
            region@,
            service@,
            epoch_secs,
            method@,
            url@,
            spec_header_pairs(spec_headers(headers@)),
            body@,
        ) is Some,
        r matches Ok(ins) ==> match sigv4_instructions(
            key@,
            secret@,
            spec_opt_str(*token),
            region@,
            service@,
            epoch_secs,
            method@,
            url@,
            spec_header_pairs(spec_headers(headers@)),
            body@,
        ) {
            Some(parts) => instruction_headers(ins) == parts.0 && instruction_params(ins)
                == parts.1,
            None => false,
        },
{
    let id = Credentials::new(key, secret, token.clone(), None, "user").into();
    let mut st = SigningSettings::default();
    st.payload_checksum_kind = PayloadChecksumKind::XAmzSha256;
    st.signature_location = SignatureLocation::Headers;
    let pr = V4SigningParams::builder().identity(&id).region(region).name(service).time(
        std::time::UNIX_EPOCH + std::time::Duration::from_secs(epoch_secs),
    ).settings(st).build().map_err(err_text)?;
    let sr = SignableRequest::new(
        method,
        url,
        headers.iter().map(|h| (h.name.as_str(), h.value.as_str())),
        SignableBody::Bytes(body),
    ).map_err(err_text)?;
    Ok(sign(sr, &SigningParams::V4(pr)).map_err(err_text)?.into_parts().0)
}

/// The pairs of a (String, String) list, as they appear in contracts.
pub open spec fn spec_string_pairs(ps: Seq<(String, String)>) -> Seq<(Seq<char>, Seq<char>)> {
    Seq::new(ps.len(), |i: int| (ps[i].0@, ps[i].1@))
}

/// Relies on SigningInstructions::into_parts: hands the signed headers and
/// signed query parameters out unchanged, with each header's sensitive mark.
#[verifier::external_body]
fn split_instructions(ins: SigningInstructions) -> (r: (Vec<HeaderEntry>, Vec<(String, String)>))
    ensures
        spec_headers(r.0@) == instruction_headers(ins),
        spec_string_pairs(r.1@) == instruction_params(ins),
{
    let (hs, qs) = ins.into_parts();
    (
        hs.into_iter().map(
            |h| HeaderEntry {
                name: h.name().to_string(),
                value: h.value().to_string(),
                sensitive: h.sensitive(),
            },
        ).collect(),
        qs.into_iter().map(|q| (q.0.to_string(), q.1.into_owned())).collect(),
    )
}

/// No signed header may collide with an existing header, nor with a signed
/// header inserted before it.
pub open spec fn no_collision(existing: Seq<SpecHeader>, signed: Seq<SpecHeader>) -> bool
    decreases signed.len(),
{
    signed.len() == 0 || {
        &&& no_collision(existing, signed.drop_last())
        &&& !spec_has_header(existing, signed.last().name)
        &&& !spec_has_header(signed.drop_last(), signed.last().name)
    }
}

pub proof fn lemma_no_collision_at(existing: Seq<SpecHeader>, signed: Seq<SpecHeader>, i: int)
    requires
        no_collision(existing, signed),
        0 <= i < signed.len(),
    ensures
        !spec_has_header(existing, signed[i].name),
        !spec_has_header(signed.take(i), signed[i].name),
    decreases signed.len(),
{
    if i == signed.len() - 1 {
        assert(signed.drop_last() =~= signed.take(i));
    } else {
        lemma_no_collision_at(existing, signed.drop_last(), i);
        assert(signed.drop_last().take(i) =~= signed.take(i));
        assert(signed.drop_last()[i] == signed[i]);
    }
}

/// What signing a request comes to, step by step: first the two inputs the
/// signer is never handed (a timestamp it cannot represent, a URL without
/// a host), then the signer's own verdict, then the refusal of
/// query-parameter placement, then the collision check, and only then the
/// new header set.
pub enum SignOutcome {
    Signed(Seq<SpecHeader>),
    TimestampOutOfRange,
    UrlWithoutHost,
    SigningFailed,
    PlacementMismatch,
    HeaderCollision,
}

/// The outcome of signing `req` with the given credentials at the given
/// time. An absent body is signed as the empty byte sequence.
pub open spec fn sign_outcome(
    req: SpecRequest,
    creds: SpecAwsCredentials,
    region: Seq<char>,
    epoch_secs: u64,
) -> SignOutcome {
    let body = match req.body {
        Some(b) => b,
        None => Seq::empty(),
    };
    if epoch_secs > MAX_SIGNING_EPOCH_SECS {
        SignOutcome::TimestampOutOfRange
    } else if uri_authority_missing(req.url) {
        SignOutcome::UrlWithoutHost
    } else {
        sign_instructions_outcome(req, creds, region, epoch_secs, body)
    }
}

/// The steps of `sign_outcome` from the signer's verdict on.
pub open spec fn sign_instructions_outcome(
    req: SpecRequest,
    creds: SpecAwsCredentials,
    region: Seq<char>,
    epoch_secs: u64,
    body: Seq<u8>,
) -> SignOutcome {
    match sigv4_instructions(
        creds.access_key_id,
        creds.secret_access_key,
        creds.session_token,
        region,
        aws_service_name(),
        epoch_secs,
        spec_method_name(req.method),
        req.url,
        spec_header_pairs(req.headers),
        body,
    ) {
        None => SignOutcome::SigningFailed,
        Some(parts) => {
            if parts.1.len() > 0 {
                SignOutcome::PlacementMismatch
            } else if !no_collision(req.headers, parts.0) {
                SignOutcome::HeaderCollision
            } else {
                SignOutcome::Signed(req.headers + parts.0)
            }
        },
    }
}

/// Signing is deterministic: two requests that agree in method, URL,
/// headers and body, signed with the same credentials, region and
/// timestamp, come to the same outcome — in particular, to identical
/// signed header sets.
pub proof fn lemma_signing_deterministic(
    req1: SpecRequest,
    req2: SpecRequest,
    creds: SpecAwsCredentials,
    region: Seq<char>,
    epoch_secs: u64,
)
    requires
        req1.method == req2.method,
        req1.url == req2.url,
        req1.headers == req2.headers,
        req1.body == req2.body,
    ensures
        sign_outcome(req1, creds, region, epoch_secs) == sign_outcome(req2, creds, region, epoch_secs),
{
}

/// Header-mode signing never lets signed query parameters through: where
/// the signer is consulted and its instructions carry any, the outcome is
/// the placement failure, and a signed request only ever comes from
/// instructions with none.
pub proof fn lemma_no_signed_query_params(
    req: SpecRequest,
    creds: SpecAwsCredentials,
    region: Seq<char>,
    epoch_secs: u64,
)
    ensures
        ({
            let body = match req.body {
                Some(b) => b,
                None => Seq::empty(),
            };
            let ins = sigv4_instructions(
                creds.access_key_id,
                creds.secret_access_key,
                creds.session_token,
                region,
                aws_service_name(),
                epoch_secs,
                spec_method_name(req.method),
                req.url,
                spec_header_pairs(req.headers),
                body,
            );
            &&& (epoch_secs <= MAX_SIGNING_EPOCH_SECS && !uri_authority_missing(req.url) && (ins
                matches Some(parts) && parts.1.len() > 0) ==> sign_outcome(
                req,
                creds,
                region,
                epoch_secs,
            ) == SignOutcome::PlacementMismatch)
            &&& (sign_outcome(req, creds, region, epoch_secs) matches SignOutcome::Signed(_)
                ==> ins matches Some(parts) && parts.1.len() == 0)
        }),
{
}

fn headers_prefix_has(hs: &Vec<HeaderEntry>, upto: usize, name: &str) -> (r: bool)
    requires
        upto <= hs@.len(),
    ensures
        r == spec_has_header(spec_headers(hs@).take(upto as int), name@),
{
    let mut i: usize = 0;
    while i < upto
        invariant
            i <= upto <= hs@.len(),
            forall|j: int| 0 <= j < i ==> spec_headers(hs@).take(upto as int)[j].name != name@,
        decreases upto - i,
    {
        if crate::text::str_eq(hs[i].name.as_str(), name) {
            proof {
                assert(spec_headers(hs@).take(upto as int)[i as int].name == name@);
            }
            return true;
        }
        i = i + 1;
    }
    false
}

impl HttpRequest {
    /// Computes the SigV4 signature for this request and inserts the signed
    /// headers. Fails, leaving the request as it was, when the timestamp
    /// is past what the signer's dates can represent, when the request URL
    /// carries no host to sign for, when the signer refuses the inputs,
    /// when the instructions would put signed parameters into the query
    /// string, or when a signed header name is already taken.
    #[verifier::loop_isolation(false)]
    pub fn sign_sigv4(
        &mut self,
        aws: &AwsSigv4,
        creds: &AwsCredentials,
        epoch_secs: u64,
    ) -> (r: Result<(), ElasticSearchError>)
        ensures
            match sign_outcome(old(self)@, creds@, aws@.region, epoch_secs) {
                SignOutcome::TimestampOutOfRange => {
                    &&& r matches Err(e) && e.message@ == "signing timestamp out of range"@
                        && e.spec_causes().len() == 0
                    &&& final(self)@ == old(self)@
                },
                SignOutcome::UrlWithoutHost => {
                    &&& r matches Err(e) && e.message@ == "request url has no host to sign for"@
                        && e.spec_causes().len() == 0
                    &&& final(self)@ == old(self)@
                },
                SignOutcome::Signed(hs) => {
                    &&& r is Ok
                    &&& final(self)@.headers == hs
                    &&& final(self)@.method == old(self)@.method
                    &&& final(self)@.url == old(self)@.url
                    &&& final(self)@.body == old(self)@.body
                },
                SignOutcome::SigningFailed => {
                    &&& r matches Err(e) && e.message@ == "failed to compute aws sigv4 signature"@
                        && e.spec_causes().len() == 1
                    &&& final(self)@ == old(self)@
                },
                SignOutcome::PlacementMismatch => {
                    &&& r matches Err(e) && e.message@
                        == "sigv4 signed results not all in request header format"@
                    &&& final(self)@ == old(self)@
                },
                SignOutcome::HeaderCollision => {
                    &&& r matches Err(e) && e.message@
                        == "sigv4 signed header collides with an existing request header"@
                    &&& final(self)@ == old(self)@
                },
            },
    {
        if epoch_secs > MAX_SIGNING_EPOCH_SECS {
            return Err(ElasticSearchError::new("signing timestamp out of range".to_owned()));
        }
        if uri_authority_missing_check(self.url.as_str()) {
            return Err(ElasticSearchError::new("request url has no host to sign for".to_owned()));
        }
        let empty_body: Vec<u8> = Vec::new();
        let body_ref: &Vec<u8> = match &self.body {
            Some(b) => b,
            None => &empty_body,
        };
        let computed = compute_sigv4(
            creds.access_key_id.as_str(),
            creds.secret_access_key.as_str(),
            &creds.session_token,
            aws.region.as_str(),
            "es",
            epoch_secs,
            method_name(self.method),
            self.url.as_str(),
            &self.headers,
            body_ref,
        );
        let ins = match computed {
            Ok(ins) => ins,
            Err(cause) => {
                return Err(
                    ElasticSearchError::with_cause(
                        "failed to compute aws sigv4 signature".to_owned(),
                        cause,
                    ),
                );
            },
        };
        let (signed, qparams) = split_instructions(ins);
        proof {
            assert(spec_string_pairs(qparams@).len() == qparams@.len());
        }
        self.apply_signing_instructions(signed, qparams)
    }

    /// Applies split signing instructions to the request: refuses any
    /// signed query parameter (header-mode signing must not produce them),
    /// refuses a signed header whose name is already taken, and otherwise
    /// appends every signed header in order. On refusal the request is
    /// left as it was.
    #[verifier::loop_isolation(false)]
    pub fn apply_signing_instructions(
        &mut self,
        signed: Vec<HeaderEntry>,
        qparams: Vec<(String, String)>,
    ) -> (r: Result<(), ElasticSearchError>)
        ensures
            qparams@.len() > 0 ==> (r matches Err(e) && e.message@
                == "sigv4 signed results not all in request header format"@
                && e.spec_causes().len() == 0 && final(self)@ == old(self)@),
            qparams@.len() == 0 && !no_collision(old(self)@.headers, spec_headers(signed@)) ==> (r
                matches Err(e) && e.message@
                == "sigv4 signed header collides with an existing request header"@
                && e.spec_causes().len() == 0 && final(self)@ == old(self)@),
            qparams@.len() == 0 && no_collision(old(self)@.headers, spec_headers(signed@)) ==> (r
                is Ok && final(self)@.headers == old(self)@.headers + spec_headers(signed@)
                && final(self)@.method == old(self)@.method && final(self)@.url == old(self)@.url
                && final(self)@.body == old(self)@.body),
    {
        let ghost signed_view = spec_headers(signed@);
        if qparams.len() > 0 {
            return Err(
                ElasticSearchError::new(
                    "sigv4 signed results not all in request header format".to_owned(),
                ),
            );
        }
        let mut i: usize = 0;
        while i < signed.len()
            invariant
                i <= signed@.len(),
                no_collision(spec_headers(self.headers@), signed_view.take(i as int)),
                signed_view == spec_headers(signed@),
            decreases signed@.len() - i,
        {
            let hname = signed[i].name.as_str();
            let in_existing = self.has_header(hname);
            let in_signed_prefix = headers_prefix_has(&signed, i, hname);
            if in_existing || in_signed_prefix {
                proof {
                    assert(hname@ == signed_view[i as int].name);
                    if no_collision(self@.headers, signed_view) {
                        lemma_no_collision_at(self@.headers, signed_view, i as int);
                        assert(false);
                    }
                }
                return Err(
                    ElasticSearchError::new(
                        "sigv4 signed header collides with an existing request header".to_owned(),
                    ),
                );
            }
            proof {
                assert(signed_view.take(i + 1).drop_last() =~= signed_view.take(i as int));
                assert(signed_view.take(i + 1).last() == signed_view[i as int]);
            }
            i = i + 1;
        }
        proof {
            assert(signed_view.take(signed@.len() as int) =~= signed_view);
        }
        let ghost headers_before = self@.headers;
        let mut k: usize = 0;
        while k < signed.len()
            invariant
                k <= signed@.len(),
                signed_view == spec_headers(signed@),
                self@.headers =~= headers_before + signed_view.take(k as int),
                self@.method == old(self)@.method,
                self@.url == old(self)@.url,
                self@.body == old(self)@.body,
            decreases signed@.len() - k,
        {
            let name = signed[k].name.clone();
            let value = signed[k].value.clone();
            let sensitive = signed[k].sensitive;
            self.add_header(name, value, sensitive);
            proof {
                assert(self@.headers =~= headers_before + signed_view.take(k + 1));
            }
            k = k + 1;
        }
        proof {
            assert(headers_before + signed_view.take(signed@.len() as int) =~= headers_before
                + signed_view);
        }
        Ok(())
    }
}

} // verus!
