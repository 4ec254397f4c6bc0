//! A minimal HTTP(S) static-content server library.
//!
//! The library holds the decision logic of the server: classifying PEM blocks
//! into TLS credentials, building the TLS server configuration, classifying
//! handshake failures, driving the accept loop as a state machine, selecting
//! the serving mode, and answering requests from one immutable content blob.

use vstd::prelude::*;

pub mod accept;
pub mod content;
pub mod credentials;
pub mod tls;

verus! {

/// Whether the server runs plain HTTP or terminates TLS itself.
#[derive(Clone, Copy, Debug, PartialEq, Eq, Structural)]
pub enum ServeMode {
    Plain,
    Tls,
}

/// Pick the serving mode from the optional certificate and key paths:
/// TLS runs only when both paths are present; if either is absent the
/// server speaks plain HTTP.
pub fn select_mode(cert_path: &Option<String>, key_path: &Option<String>) -> (m: ServeMode)
    ensures
        m is Plain <==> (cert_path is None || key_path is None),
{
    if cert_path.is_none() || key_path.is_none() {
        ServeMode::Plain
    } else {
        ServeMode::Tls
    }
}

} // verus!
