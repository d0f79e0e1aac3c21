//! Trust material and the HTTP transport. A caller-supplied certificate
//! authority is handed to reqwest as a trust-anchor value; the transport is
//! built from the current trust configuration and replaced as a whole
//! whenever that configuration changes. With the rustls backend the anchor
//! constructors only store the bytes: whether they parse as an X.509
//! certificate is decided when the transport is built, so an installer
//! that wants an accept-or-reject verdict must attempt the build.

use vstd::prelude::*;

verus! {

#[verifier::external_type_specification]
#[verifier::external_body]
pub struct ExCertificate(reqwest::Certificate);

#[verifier::external_type_specification]
#[verifier::external_body]
pub struct ExClient(reqwest::Client);

/// Relies on reqwest::Certificate::from_pem: wraps the bytes as a PEM
/// trust anchor. Built rustls-only it stores them without inspection and
/// does not fail; the X.509 verdict falls at `build_transport`.
#[verifier::external_body]
pub fn certificate_from_pem(buf: &[u8]) -> (r: Result<reqwest::Certificate, String>)
{
    reqwest::Certificate::from_pem(buf).map_err(|e| e.to_string())
}

/// Relies on reqwest::Certificate::from_der: wraps the bytes as a DER
/// trust anchor. Built rustls-only it stores them without inspection and
/// does not fail; the X.509 verdict falls at `build_transport`.
#[verifier::external_body]
pub fn certificate_from_der(buf: &[u8]) -> (r: Result<reqwest::Certificate, String>)
{
    reqwest::Certificate::from_der(buf).map_err(|e| e.to_string())
}

/// Relies on reqwest::ClientBuilder (rustls TLS): builds a transport that
/// trusts the given anchor beside the system roots, or the system roots
/// alone. This is where an anchor whose bytes do not parse as a
/// certificate is refused; the build also reads the environment (for
/// system proxy settings, for one), so nothing is promised of the outcome.
#[verifier::external_body]
pub fn build_transport(cert: Option<&reqwest::Certificate>) -> (r: Result<reqwest::Client, String>)
{
    let mut builder = reqwest::Client::builder().use_rustls_tls();
    if let Some(c) = cert {
        builder = builder.add_root_certificate(c.clone());
    }
    builder.build().map_err(|e| e.to_string())
}

} // verus!
