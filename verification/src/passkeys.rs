//! The process-wide configuration of the ceremony verifier: the relying
//! party's hostname, used as both the cryptographic origin and the protocol
//! identifier, and the auxiliary identifier for legacy platform
//! compatibility. Constructed once at startup and shared read-only.

use vstd::prelude::*;

use webauthn_rs::Webauthn;

use crate::ceremony::{build_webauthn, valid_rp_host};

verus! {

/// Configuration for the Webauthn instance used for passkey authentication.
pub struct PasskeyAuthState {
    /// The Webauthn instance used for passkey authentication.
    pub webauthn: Webauthn,
    /// The hostname of the server used as the RP ID and origin.
    pub hostname: String,
    /// The appid required for communicating with Apple devices.
    pub appid: String,
}

impl PasskeyAuthState {
    /// Builds the verifier for `https://<rp_id>`: construction succeeds
    /// exactly when the hostname forms a valid relying-party origin.
    pub fn new(rp_id: String, appid: String) -> (r: Option<PasskeyAuthState>)
        ensures
            r is Some <==> valid_rp_host(rp_id@),
            r matches Some(s) ==> s.hostname == rp_id && s.appid == appid,
    {
        match build_webauthn(rp_id.as_str()) {
            Some(webauthn) => Some(PasskeyAuthState { webauthn, hostname: rp_id, appid }),
            None => None,
        }
    }
}

} // verus!
