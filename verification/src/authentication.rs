//! The authentication ceremony: issue a challenge against a known user's
//! credentials, then verify the signed assertion through the backend
//! authenticator and log the connection in as the resolved user.
//!
//! A verification failure and an unrecognised credential both come back as
//! `BackendAuthInvalid`, deliberately indistinguishable to the client.

use vstd::prelude::*;

use webauthn_rs::prelude::{
    Passkey, PublicKeyCredential, RequestChallengeResponse, WebauthnError,
};

use crate::backend::{
    authenticate, unchanged_except, BackendAuthError, BackendAuthParameters, CredentialResolution,
};
use crate::ceremony::{begin_authentication, clone_passkey};
use crate::passkeys::PasskeyAuthState;
use crate::session::{AuthenticationSessionInfo, ChallengeSession, LoginSession};
use crate::store::{Credential, CredentialStore};

verus! {

/// The errors an authentication ceremony can end in.
#[derive(Debug)]
pub enum PasskeyAuthError {
    /// A user with that name does not exist.
    UserDoesNotExist,
    /// The verifier could not create an authentication challenge.
    ChallengeCreationFailure(WebauthnError),
    /// Authentication state was missing from the challenge session.
    MissingSessionInfo,
    /// The backend authenticator failed while reconciling the ceremony.
    BackendAuthError(BackendAuthError),
    /// The backend checked the authentication challenge, but it was invalid.
    BackendAuthInvalid,
}

impl PasskeyAuthError {
    /// The HTTP status code this error is reported with: 404 for an unknown
    /// user, 400 for a missing session or an invalid ceremony, 500 for
    /// everything else.
    pub fn status_code(&self) -> (r: u16)
        ensures
            r == match self {
                PasskeyAuthError::UserDoesNotExist => 404u16,
                PasskeyAuthError::ChallengeCreationFailure(_) => 500u16,
                PasskeyAuthError::MissingSessionInfo => 400u16,
                PasskeyAuthError::BackendAuthError(_) => 500u16,
                PasskeyAuthError::BackendAuthInvalid => 400u16,
            },
    {
        match self {
            PasskeyAuthError::UserDoesNotExist => 404,
            PasskeyAuthError::ChallengeCreationFailure(_) => 500,
            PasskeyAuthError::MissingSessionInfo => 400,
            PasskeyAuthError::BackendAuthError(_) => 500,
            PasskeyAuthError::BackendAuthInvalid => 400,
        }
    }
}

/// The credential material of each record, in order: the allow-list handed
/// to the verifier when the ceremony begins.
fn collect_allow_list(creds: &Vec<Credential>) -> (r: Vec<Passkey>)
    ensures
        r@.len() == creds@.len(),
        forall|k: int| 0 <= k < creds@.len() ==> r@[k] == (#[trigger] creds@[k]).passkey,
{
    let mut allow: Vec<Passkey> = Vec::new();
    let mut i: usize = 0;
    while i < creds.len()
        invariant
            i <= creds@.len(),
            allow@.len() == i,
            forall|k: int| 0 <= k < i ==> allow@[k] == (#[trigger] creds@[k]).passkey,
        decreases creds@.len() - i,
    {
        allow.push(clone_passkey(&creds[i].passkey));
        i += 1;
    }
    allow
}

/// Starts the authentication ceremony for a known user.
///
/// An unknown username is rejected with nothing written to the session. For
/// a known user, all of the user's stored credentials form the allow-list
/// of the new ceremony, and the pending state is stored in the
/// authentication slot for the finish step.
pub fn start_authentication(
    state: &PasskeyAuthState,
    store: &CredentialStore,
    session: &mut ChallengeSession,
    username: String,
) -> (r: Result<RequestChallengeResponse, PasskeyAuthError>)
    requires
        store.wf(),
    ensures
        r matches Err(PasskeyAuthError::UserDoesNotExist) <==> !store.has_username(username@),
        r is Err ==> *final(session) == *old(session),
        final(session).registration == old(session).registration,
        r is Ok ==> (final(session).authentication matches Some(info) && info.username == username
            && exists|i: int|
            0 <= i < store.users@.len() && (#[trigger] store.users@[i]).username@ == username@
                && info.user_unique_id == store.users@[i].uuid),
        r is Ok || r matches Err(PasskeyAuthError::UserDoesNotExist) || r matches Err(
            PasskeyAuthError::ChallengeCreationFailure(_),
        ),
{
    let user = match store.get_user_by_username(&username) {
        Some(u) => u,
        None => {
            return Err(PasskeyAuthError::UserDoesNotExist);
        },
    };
    let creds = store.get_credentials_for_user(user.uuid);
    let allow = collect_allow_list(&creds);
    match begin_authentication(&state.webauthn, &allow) {
        Ok((rcr, auth_state)) => {
            session.put_authentication(
                AuthenticationSessionInfo {
                    username,
                    user_unique_id: user.uuid,
                    auth_state,
                },
            );
            Ok(rcr)
        },
        Err(e) => Err(PasskeyAuthError::ChallengeCreationFailure(e)),
    }
}

/// Finishes the authentication ceremony.
///
/// The authentication slot is consumed whatever happens, so a second finish
/// with the same session reports the state missing. The backend
/// authenticator reconciles the signed assertion: an invalid ceremony comes
/// back as `BackendAuthInvalid` with nothing mutated; a valid one logs the
/// connection in as the resolved user. Stored counters never move
/// backwards, and at most one stored credential is touched.
pub fn finish_authentication(
    state: &PasskeyAuthState,
    store: &mut CredentialStore,
    session: &mut ChallengeSession,
    login: &mut LoginSession,
    response: PublicKeyCredential,
    now: u64,
) -> (r: Result<(), PasskeyAuthError>)
    requires
        old(store).wf(),
    ensures
        final(store).wf(),
        final(session).authentication is None,
        final(session).registration == old(session).registration,
        r matches Err(PasskeyAuthError::MissingSessionInfo) <==> old(
            session,
        ).authentication is None,
        old(session).authentication is None ==> *final(store) == *old(store) && *final(login)
            == *old(login),
        r matches Err(PasskeyAuthError::BackendAuthInvalid) ==> *final(store) == *old(store)
            && *final(login) == *old(login),
        r is Err ==> *final(login) == *old(login),
        final(store).users@ == old(store).users@,
        final(store).credentials@.len() == old(store).credentials@.len(),
        forall|j: int|
            0 <= j < old(store).credentials@.len() ==> {
                let c = #[trigger] final(store).credentials@[j];
                let o = old(store).credentials@[j];
                c.id == o.id && c.user_uuid == o.user_uuid && c.cred_id@ == o.cred_id@
                    && c.created_at == o.created_at && c.counter >= o.counter
            },
        exists|m: int|
            #[trigger] unchanged_except(old(store).credentials@, final(store).credentials@, m),
        r is Ok ==> (final(login).user_id matches Some(id) && exists|j: int|
            0 <= j < old(store).users@.len() && (#[trigger] old(store).users@[j]).id == id),
        r is Ok || r matches Err(PasskeyAuthError::MissingSessionInfo) || r matches Err(
            PasskeyAuthError::BackendAuthInvalid,
        ) || r matches Err(PasskeyAuthError::BackendAuthError(_)),
{
    let info = match session.take_authentication() {
        Some(i) => i,
        None => {
            proof {
                assert(unchanged_except(
                    old(store).credentials@,
                    store.credentials@,
                    old(store).credentials@.len() as int,
                ));
            }
            return Err(PasskeyAuthError::MissingSessionInfo);
        },
    };
    let params = BackendAuthParameters {
        auth_state: info.auth_state,
        challenge_response: response,
        identity: CredentialResolution::Unknown(info.user_unique_id),
    };
    let user = match authenticate(&state.webauthn, store, params, now) {
        Ok(Some(u)) => u,
        Ok(None) => {
            return Err(PasskeyAuthError::BackendAuthInvalid);
        },
        Err(e) => {
            return Err(PasskeyAuthError::BackendAuthError(e));
        },
    };
    login.login(&user);
    Ok(())
}

} // verus!
