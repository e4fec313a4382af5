use vstd::prelude::*;
use crate::pem::{load_certs, load_keys, pem_certs, pem_keys};
use tokio_rustls::rustls::ServerConfig;
use tokio_rustls::TlsAcceptor;

verus! {

/// Why a server TLS context could not be set up. The causes (an unreadable
/// certificate or key file, no key, a key the TLS library refuses) are not
/// told apart.
#[derive(Clone, Copy, Debug, PartialEq, Eq, Structural)]
pub enum SetupError {
    TlsError,
}

#[verifier::external_type_specification]
#[verifier::external_body]
pub struct ExServerConfig(ServerConfig);

#[verifier::external_type_specification]
#[verifier::external_body]
pub struct ExTlsAcceptor(TlsAcceptor);

#[verifier::external_type_specification]
#[verifier::external_body]
pub struct ExRustlsError(tokio_rustls::rustls::Error);

/// Whether rustls can read `key` (DER bytes) as an RSA, ECDSA or Ed25519
/// signing key, given a working random number generator.
pub uninterp spec fn signing_key_accepted(key: Seq<u8>) -> bool;

/// Relies on `ServerConfig::builder().with_safe_defaults().with_no_client_auth()
/// .with_single_cert(..)` of rustls: default cipher suites and protocol
/// versions, no client authentication, `chain` served with `key`. It only
/// succeeds where `sign::any_supported_type` reads the key; for an ECDSA key
/// that also needs the system's random number generator, so an accepted key
/// may still be refused.
#[verifier::external_body]
fn single_cert_config(chain: Vec<Vec<u8>>, key: Vec<u8>) -> (r: Result<
    ServerConfig,
    tokio_rustls::rustls::Error,
>)
    ensures
        r is Ok ==> signing_key_accepted(key@),
{
    ServerConfig::builder().with_safe_defaults().with_no_client_auth().with_single_cert(
        chain.into_iter().map(tokio_rustls::rustls::Certificate).collect(),
        tokio_rustls::rustls::PrivateKey(key),
    )
}

/// Relies on `TlsAcceptor::from` of tokio-rustls: an acceptor that shares the
/// configuration with every connection it wraps.
#[verifier::external_body]
fn acceptor_for(config: ServerConfig) -> (r: TlsAcceptor) {
    TlsAcceptor::from(std::sync::Arc::new(config))
}

/// The key that signs for the server: the first of `keys`, the others being
/// ignored. No key at all is an error.
pub fn select_signing_key(keys: Vec<Vec<u8>>) -> (r: Result<Vec<u8>, SetupError>)
    ensures
        r is Err <==> keys@.len() == 0,
        r is Ok ==> r->Ok_0@ == keys.deep_view()[0],
{
    let mut keys = keys;
    if keys.len() == 0 {
        return Err(SetupError::TlsError);
    }
    let key = keys.remove(0);
    proof {
        assert(key@ =~= key.deep_view());
    }
    Ok(key)
}

/// What a server TLS context set up from the certificate file `cert_pem` and
/// the key file `key_pem` needs: both files are readable, the key file holds
/// at least one key, and rustls can read its first key.
pub open spec fn tls_setup_ok(cert_pem: Seq<u8>, key_pem: Seq<u8>) -> bool {
    &&& pem_certs(cert_pem) is Some
    &&& pem_keys(key_pem) is Some
    &&& pem_keys(key_pem)->0.len() > 0
    &&& signing_key_accepted(pem_keys(key_pem)->0[0])
}

/// A server TLS context: the acceptor that wraps each plaintext connection
/// in an encrypted session, with the certificate chain and the key (DER
/// bytes) that its configuration was built from.
pub struct Tls {
    pub acceptor: TlsAcceptor,
    chain: Ghost<Seq<Seq<u8>>>,
    key: Ghost<Seq<u8>>,
}

impl Tls {
    /// The certificate chain (DER, leaf first) that the configuration serves.
    pub closed spec fn served_chain(&self) -> Seq<Seq<u8>> {
        self.chain@
    }

    /// The private key (DER) that the configuration signs with.
    pub closed spec fn signing_key(&self) -> Seq<u8> {
        self.key@
    }

    /// Sets up the server TLS context from the PEM texts of a certificate
    /// chain (leaf first) and of a private key file. The first key of the key
    /// file is used; any further keys are ignored. A certificate or key file
    /// that cannot be read, or a key file with no key, is refused; so is a
    /// key that rustls does not take.
    pub fn new(cert_pem: &[u8], key_pem: &[u8]) -> (r: Result<Tls, SetupError>)
        ensures
            r is Ok ==> tls_setup_ok(cert_pem@, key_pem@),
            pem_certs(cert_pem@) is None ==> r is Err,
            pem_keys(key_pem@) is None ==> r is Err,
            pem_keys(key_pem@) matches Some(keys) && keys.len() == 0 ==> r is Err,
            r is Ok ==> r->Ok_0.served_chain() == pem_certs(cert_pem@)->0,
            r is Ok ==> r->Ok_0.signing_key() == pem_keys(key_pem@)->0[0],
    {
        let certs = match load_certs(cert_pem) {
            Ok(certs) => certs,
            Err(_) => return Err(SetupError::TlsError),
        };
        let keys = match load_keys(key_pem) {
            Ok(keys) => keys,
            Err(_) => return Err(SetupError::TlsError),
        };
        let key = match select_signing_key(keys) {
            Ok(key) => key,
            Err(e) => return Err(e),
        };
        let ghost chain = certs.deep_view();
        let ghost key_der = key@;
        let config = match single_cert_config(certs, key) {
            Ok(config) => config,
            Err(_) => return Err(SetupError::TlsError),
        };
        Ok(Tls { acceptor: acceptor_for(config), chain: Ghost(chain), key: Ghost(key_der) })
    }
}

} // verus!
