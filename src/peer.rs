use vstd::prelude::*;
use tokio_rustls::rustls::client::ServerCertVerified;
use tokio_rustls::rustls::{Certificate, ServerName};
use std::time::SystemTime;

verus! {

#[verifier::external_type_specification]
#[verifier::external_body]
pub struct ExServerCertVerified(ServerCertVerified);

#[verifier::external_type_specification]
#[verifier::external_body]
pub struct ExCertificate(Certificate);

#[verifier::external_type_specification]
#[verifier::external_body]
pub struct ExServerName(ServerName);

#[verifier::external_type_specification]
#[verifier::external_body]
pub struct ExSystemTime(SystemTime);

/// Relies on `ServerCertVerified::assertion` of rustls, the token that says a
/// server certificate was found valid.
pub assume_specification[ ServerCertVerified::assertion ]() -> ServerCertVerified;

/// A peer verifier that takes every server certificate as valid, with no
/// check of its signature, issuer, validity period, host name, timestamps or
/// OCSP response. It turns TLS server authentication off, and is only for
/// setups that ask for that on purpose.
pub struct NoCertificateVerification;

impl NoCertificateVerification {
    /// Judges the certificate `_end_entity` presented with the chain
    /// `_intermediates` and the OCSP response `_ocsp_response` for
    /// `_server_name` at `_now`: it is always found valid. Signed certificate
    /// timestamps are not looked at either.
    pub fn verify_server_cert(
        &self,
        _end_entity: &Certificate,
        _intermediates: &[Certificate],
        _server_name: &ServerName,
        _ocsp_response: &[u8],
        _now: SystemTime,
    ) -> (r: Result<ServerCertVerified, tokio_rustls::rustls::Error>)
        ensures
            r is Ok,
    {
        Ok(ServerCertVerified::assertion())
    }
}

} // verus!
