//! TLS server configuration and handshake-failure classification.
//!
//! The configuration accepts anonymous clients (no client-certificate
//! validation), serves one certificate chain with one key, and prefers
//! HTTP/2 over HTTP/1.1 through ALPN. A failed handshake is classified in
//! two ways only: a bad-certificate alert from the peer is benign and is
//! logged quietly; every other failure is noteworthy and logged as a
//! warning. Neither class ever stops the accept loop.

use vstd::prelude::*;

use crate::credentials::{CertificateChain, PrivateKey};

verus! {

/// The TLS alert code `bad_certificate`, sent by a peer that rejects a
/// certificate it was offered.
pub const BAD_CERTIFICATE_ALERT: u8 = 42;

/// What went wrong in a TLS handshake, as far as the logging policy reads
/// it: an alert received from the peer, with its alert code, or anything
/// else.
#[derive(Clone, Copy, Debug, PartialEq, Eq, Structural)]
pub enum HandshakeFault {
    AlertReceived(u8),
    Other,
}

/// The two-way split of handshake failures: benign failures are logged at
/// debug level, noteworthy ones at warning level.
#[derive(Clone, Copy, Debug, PartialEq, Eq, Structural)]
pub enum FailureClass {
    Benign,
    Noteworthy,
}

/// The class a fault belongs to: only a received bad-certificate alert is
/// benign.
pub open spec fn spec_classify(f: HandshakeFault) -> FailureClass {
    if f matches HandshakeFault::AlertReceived(code) && code == BAD_CERTIFICATE_ALERT {
        FailureClass::Benign
    } else {
        FailureClass::Noteworthy
    }
}

/// Classify one handshake failure for the logging policy.
pub fn classify_handshake_failure(f: &HandshakeFault) -> (c: FailureClass)
    ensures
        c == spec_classify(*f),
{
    match f {
        HandshakeFault::AlertReceived(code) => {
            if *code == BAD_CERTIFICATE_ALERT {
                FailureClass::Benign
            } else {
                FailureClass::Noteworthy
            }
        },
        HandshakeFault::Other => FailureClass::Noteworthy,
    }
}

/// Why the TLS configuration could not be built.
#[derive(Clone, Copy, Debug, PartialEq, Eq, Structural)]
pub enum TlsConfigError {
    /// rustls could not parse the private key.
    KeyRejected,
}

#[verifier::external_type_specification]
#[verifier::external_body]
pub struct ExServerConfig(rustls::ServerConfig);

/// Relies on rustls::ServerConfig::new with the
/// AllowAnyAnonymousOrAuthenticatedClient policy over an empty root store:
/// a fresh server configuration that accepts clients with or without a
/// certificate and validates none.
#[verifier::external_body]
fn new_anonymous_client_config() -> rustls::ServerConfig {
    rustls::ServerConfig::new(
        rustls::AllowAnyAnonymousOrAuthenticatedClient::new(rustls::RootCertStore::empty()),
    )
}

/// Whether rustls can parse these DER bytes as an RSA, ECDSA or Ed25519
/// private key; this depends on the bytes alone.
pub uninterp spec fn key_der_supported(key: Seq<u8>) -> bool;

/// Relies on rustls::ServerConfig::set_single_cert: installs the chain and
/// key for every subsequent connection, and fails exactly when the key's
/// DER bytes cannot be parsed as a supported private key.
#[verifier::external_body]
fn config_set_single_cert(
    cfg: &mut rustls::ServerConfig,
    chain: &CertificateChain,
    key: &PrivateKey,
) -> (r: Result<(), TlsConfigError>)
    ensures
        r is Ok <==> key_der_supported(key@),
{
    let certs: Vec<rustls::Certificate> =
        chain.ders().iter().map(|d| rustls::Certificate(d.clone())).collect();
    cfg.set_single_cert(certs, rustls::PrivateKey(key.der().clone()))
        .map_err(|_| TlsConfigError::KeyRejected)
}

/// Relies on rustls::ServerConfig::set_protocols: replaces the ALPN
/// preference list with the given protocol names, most preferred first.
#[verifier::external_body]
fn config_set_protocols(cfg: &mut rustls::ServerConfig, protocols: &Vec<Vec<u8>>) {
    cfg.set_protocols(protocols.as_slice());
}

/// The bytes of the ALPN protocol name `h2`.
pub open spec fn spec_alpn_h2() -> Seq<u8> {
    seq![104u8, 50u8]
}

/// The bytes of the ALPN protocol name `http/1.1`.
pub open spec fn spec_alpn_http11() -> Seq<u8> {
    seq![104u8, 116u8, 116u8, 112u8, 47u8, 49u8, 46u8, 49u8]
}

/// The ALPN preference list: HTTP/2 first, then HTTP/1.1.
pub fn alpn_protocols() -> (r: Vec<Vec<u8>>)
    ensures
        r@.len() == 2,
        r@[0]@ == spec_alpn_h2(),
        r@[1]@ == spec_alpn_http11(),
{
    let mut h2: Vec<u8> = Vec::new();
    h2.push(104u8);
    h2.push(50u8);
    let mut http11: Vec<u8> = Vec::new();
    http11.push(104u8);
    http11.push(116u8);
    http11.push(116u8);
    http11.push(112u8);
    http11.push(47u8);
    http11.push(49u8);
    http11.push(46u8);
    http11.push(49u8);
    assert(h2@ =~= spec_alpn_h2());
    assert(http11@ =~= spec_alpn_http11());
    let mut r: Vec<Vec<u8>> = Vec::new();
    r.push(h2);
    r.push(http11);
    r
}

/// Build the server's TLS configuration from loaded credentials: anonymous
/// clients allowed, the single chain and key installed, ALPN preferring
/// HTTP/2 then HTTP/1.1. Fails exactly when rustls rejects the key's DER
/// bytes.
pub fn build_tls_server_config(
    chain: &CertificateChain,
    key: &PrivateKey,
) -> (r: Result<rustls::ServerConfig, TlsConfigError>)
    ensures
        r is Ok <==> key_der_supported(key@),
        r matches Err(e) ==> e is KeyRejected,
{
    let mut cfg = new_anonymous_client_config();
    match config_set_single_cert(&mut cfg, chain, key) {
        Ok(()) => {
            let protocols = alpn_protocols();
            config_set_protocols(&mut cfg, &protocols);
            Ok(cfg)
        },
        Err(e) => Err(e),
    }
}

} // verus!
