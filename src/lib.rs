//! Server-side TLS identity: PEM certificate and key parsing, assembly of a
//! server configuration with its acceptor, and a permissive peer verifier.
pub mod pem;
pub mod server;
pub mod peer;

pub use pem::{load_certs, load_keys, recognized_key, PemError, PemSection};
pub use server::{select_signing_key, SetupError, Tls};
pub use peer::NoCertificateVerification;
