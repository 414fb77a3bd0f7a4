//! The trusted boundary to the outside ceremony verifier (webauthn-rs), the
//! uuid generator and the serde_json encoder.
//!
//! The ceremony verifier performs the cryptographic verification of signed
//! WebAuthn attestations and assertions. Its inputs and outputs are opaque to
//! the rest of the library: what the protocol logic reads of them (credential
//! id bytes, signature counters, update flags) is extracted here into plain
//! values, and everything decided on those values is verified.

use vstd::prelude::*;

use webauthn_rs::prelude::{
    AuthenticationResult, CreationChallengeResponse, Passkey, PasskeyAuthentication,
    PasskeyRegistration, PublicKeyCredential, RegisterPublicKeyCredential,
    RequestChallengeResponse, WebauthnError,
};
use webauthn_rs::Webauthn;

verus! {

#[verifier::external_type_specification]
#[verifier::external_body]
pub struct ExWebauthn(Webauthn);

#[verifier::external_type_specification]
#[verifier::external_body]
pub struct ExCreationChallengeResponse(CreationChallengeResponse);

#[verifier::external_type_specification]
#[verifier::external_body]
pub struct ExPasskeyRegistration(PasskeyRegistration);

#[verifier::external_type_specification]
#[verifier::external_body]
pub struct ExRegisterPublicKeyCredential(RegisterPublicKeyCredential);

#[verifier::external_type_specification]
#[verifier::external_body]
pub struct ExPasskey(Passkey);

#[verifier::external_type_specification]
#[verifier::external_body]
pub struct ExRequestChallengeResponse(RequestChallengeResponse);

#[verifier::external_type_specification]
#[verifier::external_body]
pub struct ExPasskeyAuthentication(PasskeyAuthentication);

#[verifier::external_type_specification]
#[verifier::external_body]
pub struct ExPublicKeyCredential(PublicKeyCredential);

#[verifier::external_type_specification]
#[verifier::external_body]
pub struct ExAuthenticationResult(AuthenticationResult);

#[verifier::external_type_specification]
#[verifier::external_body]
pub struct ExWebauthnError(WebauthnError);

#[verifier::external_type_specification]
#[verifier::external_body]
pub struct ExSerdeJsonError(serde_json::Error);

/// The hostnames for which `https://<rp_id>` parses as a URL and the
/// webauthn builder accepts it as a relying-party origin. That outcome is a
/// function of the hostname alone, so it carries a name rather than a
/// restatement of the URL grammar.
pub uninterp spec fn valid_rp_host(rp_id: Seq<char>) -> bool;

/// Relies on url::Url::parse and webauthn_rs::WebauthnBuilder: constructs the
/// relying-party verifier for the origin `https://<rp_id>`, or nothing when
/// the hostname does not form a valid origin. Both steps consult nothing
/// but the hostname, so the construction succeeds exactly on the hostnames
/// `valid_rp_host` holds of.
#[verifier::external_body]
pub(crate) fn build_webauthn(rp_id: &str) -> (r: Option<Webauthn>)
    ensures
        r is Some <==> valid_rp_host(rp_id@),
{
    let origin = webauthn_rs::prelude::Url::parse(&format!("https://{rp_id}")).ok()?;
    let builder = webauthn_rs::WebauthnBuilder::new(rp_id, &origin).ok()?;
    builder.rp_name("woof").build().ok()
}

/// Relies on uuid::Uuid::new_v4: a freshly drawn random version-4 UUID,
/// handed out as its 128-bit value; nothing is promised of a random draw.
#[verifier::external_body]
pub(crate) fn fresh_user_uuid() -> (r: u128) {
    uuid::Uuid::new_v4().as_u128()
}

/// Relies on Webauthn::start_passkey_registration: begins a registration
/// ceremony for the given user id and name, with the username doubling as
/// the display name and no credential exclusions. The challenge inside the
/// response is freshly random, so nothing is promised of the result.
#[verifier::external_body]
pub(crate) fn begin_registration(webauthn: &Webauthn, user_uuid: u128, username: &str) -> (r:
    Result<(CreationChallengeResponse, PasskeyRegistration), WebauthnError>) {
    webauthn.start_passkey_registration(
        uuid::Uuid::from_u128(user_uuid),
        username,
        username,
        None,
    )
}

/// Relies on Webauthn::finish_passkey_registration: verifies the signed
/// attestation against the stored ceremony state, yielding the new passkey
/// on success; whether it succeeds is the verifier's cryptographic decision.
#[verifier::external_body]
pub(crate) fn verify_registration(
    webauthn: &Webauthn,
    response: &RegisterPublicKeyCredential,
    state: &PasskeyRegistration,
) -> (r: Result<Passkey, WebauthnError>) {
    webauthn.finish_passkey_registration(response, state)
}

/// Relies on Webauthn::start_passkey_authentication: begins an
/// authentication ceremony against the given allow-list of passkeys. The
/// challenge inside the response is freshly random, so nothing is promised
/// of the result.
#[verifier::external_body]
pub(crate) fn begin_authentication(webauthn: &Webauthn, allow: &Vec<Passkey>) -> (r: Result<
    (RequestChallengeResponse, PasskeyAuthentication),
    WebauthnError,
>) {
    webauthn.start_passkey_authentication(allow)
}

/// Relies on Webauthn::finish_passkey_authentication: verifies the signed
/// assertion against the stored ceremony state; whether it succeeds is the
/// verifier's cryptographic decision.
#[verifier::external_body]
pub(crate) fn verify_authentication(
    webauthn: &Webauthn,
    response: &PublicKeyCredential,
    state: &PasskeyAuthentication,
) -> (r: Result<AuthenticationResult, WebauthnError>) {
    webauthn.finish_passkey_authentication(response, state)
}

/// Relies on Passkey::cred_id: the credential id bytes of a stored passkey,
/// copied out as a plain byte vector.
#[verifier::external_body]
pub(crate) fn passkey_cred_id(p: &Passkey) -> (r: Vec<u8>) {
    p.cred_id().to_vec()
}

/// Relies on AuthenticationResult::cred_id: the credential id bytes the
/// verified assertion speaks of, copied out as a plain byte vector.
#[verifier::external_body]
pub(crate) fn auth_result_cred_id(res: &AuthenticationResult) -> (r: Vec<u8>) {
    res.cred_id().to_vec()
}

/// Relies on AuthenticationResult::counter: the signature counter the
/// verified assertion asserts.
#[verifier::external_body]
pub(crate) fn auth_result_counter(res: &AuthenticationResult) -> (r: u32) {
    res.counter()
}

/// Relies on AuthenticationResult::needs_update: whether the verifier asks
/// for the stored credential's properties to be updated.
#[verifier::external_body]
pub(crate) fn auth_result_needs_update(res: &AuthenticationResult) -> (r: bool) {
    res.needs_update()
}

/// Relies on Passkey::update_credential: refreshes the stored credential
/// material (its internal counter and backup flags) from a verified
/// assertion; the verifier touches the material only when the credential ids
/// match.
#[verifier::external_body]
pub(crate) fn update_passkey(p: &mut Passkey, res: &AuthenticationResult) -> (r: Option<bool>) {
    p.update_credential(res)
}

/// Relies on Clone for Passkey, which webauthn-rs derives: the clone is the
/// same credential material.
#[verifier::external_body]
pub(crate) fn clone_passkey(p: &Passkey) -> (r: Passkey)
    ensures
        r == *p,
{
    p.clone()
}

/// Relies on serde_json::to_string: serialises the passkey credential
/// material for persistence; whether it succeeds is serde_json's decision.
#[verifier::external_body]
pub(crate) fn encode_passkey(p: &Passkey) -> (r: Result<String, serde_json::Error>) {
    serde_json::to_string(p)
}

} // verus!
