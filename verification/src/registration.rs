//! The registration ceremony: issue a challenge for a new username, then
//! verify the signed attestation and persist the new user together with its
//! first credential in one atomic step, logging the user in on success.

use vstd::prelude::*;

use webauthn_rs::prelude::{
    CreationChallengeResponse, Passkey, RegisterPublicKeyCredential, WebauthnError,
};

use crate::ceremony::{begin_registration, encode_passkey, fresh_user_uuid, passkey_cred_id,
    verify_registration};
use crate::passkeys::PasskeyAuthState;
use crate::session::{ChallengeSession, LoginSession, RegistrationSessionInfo};
use crate::store::{CredentialStore, StoreError, User};

verus! {

/// The errors a registration ceremony can end in.
#[derive(Debug)]
pub enum PasskeyRegisterError {
    /// A user with the same name already exists.
    UserAlreadyExists,
    /// The verifier could not create a new challenge.
    ChallengeCreationFailure(WebauthnError),
    /// The verifier rejected the signed attestation.
    RegistrationVerifyFailure(WebauthnError),
    /// Registration state was missing from the challenge session.
    MissingSessionInfo,
    /// The credential material could not be serialised for persistence.
    PasskeyJsonEncodeFailure(serde_json::Error),
}

impl PasskeyRegisterError {
    /// The HTTP status code this error is reported with: 409 for a taken
    /// username, 400 for a missing session, 500 for everything else.
    pub fn status_code(&self) -> (r: u16)
        ensures
            r == match self {
                PasskeyRegisterError::UserAlreadyExists => 409u16,
                PasskeyRegisterError::MissingSessionInfo => 400u16,
                PasskeyRegisterError::ChallengeCreationFailure(_) => 500u16,
                PasskeyRegisterError::RegistrationVerifyFailure(_) => 500u16,
                PasskeyRegisterError::PasskeyJsonEncodeFailure(_) => 500u16,
            },
    {
        match self {
            PasskeyRegisterError::UserAlreadyExists => 409,
            PasskeyRegisterError::MissingSessionInfo => 400,
            PasskeyRegisterError::ChallengeCreationFailure(_) => 500,
            PasskeyRegisterError::RegistrationVerifyFailure(_) => 500,
            PasskeyRegisterError::PasskeyJsonEncodeFailure(_) => 500,
        }
    }
}

/// Starts the registration ceremony for a new user.
///
/// Any pending ceremony state of this client is cleared first, so the last
/// started ceremony is the one that can finish. A taken username is rejected
/// before any ceremony begins; otherwise a fresh user identifier is drawn,
/// the verifier issues the challenge, and the pending state is stored in the
/// registration slot for the finish step.
pub fn start_register(
    state: &PasskeyAuthState,
    store: &CredentialStore,
    session: &mut ChallengeSession,
    username: String,
) -> (r: Result<CreationChallengeResponse, PasskeyRegisterError>)
    requires
        store.wf(),
    ensures
        final(session).authentication is None,
        r matches Err(PasskeyRegisterError::UserAlreadyExists) <==> store.has_username(username@),
        r is Err ==> final(session).registration is None,
        r is Ok ==> (final(session).registration matches Some(info) && info.username == username
            && !store.has_username(username@)),
        r is Ok || r matches Err(PasskeyRegisterError::UserAlreadyExists) || r matches Err(
            PasskeyRegisterError::ChallengeCreationFailure(_),
        ),
{
    session.clear();
    if store.get_user_by_username(&username).is_some() {
        return Err(PasskeyRegisterError::UserAlreadyExists);
    }
    let user_unique_id = fresh_user_uuid();
    match begin_registration(&state.webauthn, user_unique_id, username.as_str()) {
        Ok((ccr, reg_state)) => {
            session.put_registration(
                RegistrationSessionInfo { username, user_unique_id, reg_state },
            );
            Ok(ccr)
        },
        Err(e) => Err(PasskeyRegisterError::ChallengeCreationFailure(e)),
    }
}

/// Finishes the registration ceremony.
///
/// The registration slot is consumed whatever happens, so a second finish
/// with the same session reports the state missing. When the verifier
/// accepts the signed attestation, the new user and its credential are
/// persisted in one atomic step — on any failure the store is exactly as it
/// was — and the connection is logged in as the new user.
pub fn finish_register(
    state: &PasskeyAuthState,
    store: &mut CredentialStore,
    session: &mut ChallengeSession,
    login: &mut LoginSession,
    response: &RegisterPublicKeyCredential,
    now: u64,
) -> (r: Result<User, PasskeyRegisterError>)
    requires
        old(store).wf(),
    ensures
        final(store).wf(),
        final(session).registration is None,
        final(session).authentication == old(session).authentication,
        r matches Err(PasskeyRegisterError::MissingSessionInfo) <==> old(
            session,
        ).registration is None,
        r is Err ==> *final(store) == *old(store) && *final(login) == *old(login),
        r matches Err(PasskeyRegisterError::UserAlreadyExists) ==> (old(
            session,
        ).registration matches Some(info) && old(store).has_username(info.username@)),
        r matches Ok(u) ==> (old(session).registration matches Some(info) && {
            &&& u.username == info.username
            &&& u.uuid == info.user_unique_id
            &&& u.id == old(store).users@.len()
            &&& u.created_at == now
            &&& !old(store).has_username(info.username@)
            &&& final(store).users@ == old(store).users@.push(u)
            &&& final(store).credentials@.len() == old(store).credentials@.len() + 1
            &&& final(store).credentials@ == old(store).credentials@.push(
                final(store).credentials@.last(),
            )
            &&& final(store).credentials@.last().user_uuid == u.uuid
            &&& final(store).credentials@.last().counter == 0
            &&& final(store).credentials@.last().created_at == now
            &&& final(login).user_id == Some(u.id)
        }),
        r is Ok || r matches Err(PasskeyRegisterError::MissingSessionInfo) || r matches Err(
            PasskeyRegisterError::RegistrationVerifyFailure(_),
        ) || r matches Err(PasskeyRegisterError::PasskeyJsonEncodeFailure(_)) || r matches Err(
            PasskeyRegisterError::UserAlreadyExists,
        ),
{
    let info = match session.take_registration() {
        Some(info) => info,
        None => {
            return Err(PasskeyRegisterError::MissingSessionInfo);
        },
    };
    let passkey: Passkey = match verify_registration(&state.webauthn, response, &info.reg_state) {
        Ok(p) => p,
        Err(e) => {
            return Err(PasskeyRegisterError::RegistrationVerifyFailure(e));
        },
    };
    let passkey_json = match encode_passkey(&passkey) {
        Ok(s) => s,
        Err(e) => {
            return Err(PasskeyRegisterError::PasskeyJsonEncodeFailure(e));
        },
    };
    let cred_id = passkey_cred_id(&passkey);
    let user = match store.insert_user_with_credential(
        info.username,
        info.user_unique_id,
        cred_id,
        passkey,
        passkey_json,
        now,
    ) {
        Ok(u) => u,
        Err(StoreError::UsernameTaken) => {
            return Err(PasskeyRegisterError::UserAlreadyExists);
        },
    };
    login.login(&user);
    Ok(user)
}

/// Username uniqueness across sequential registrations: once a successful
/// registration has grown the store by a user carrying `name` — the shape
/// `finish_register` guarantees on success — the store holds that name, and
/// that is exactly the condition under which `start_register` answers
/// `UserAlreadyExists` before any ceremony begins.
pub proof fn lemma_username_uniqueness(
    pre: CredentialStore,
    post: CredentialStore,
    u: User,
    name: Seq<char>,
)
    requires
        post.users@ == pre.users@.push(u),
        u.username@ == name,
    ensures
        post.has_username(name),
{
    assert(post.users@[post.users@.len() - 1] == u);
}

/// The end-to-end registration outcome: when a registration completes
/// against a store that did not hold the name — the shape `finish_register`
/// guarantees on success — and the pre-allocated user identifier is fresh
/// among the stored credentials, then the store holds exactly one user
/// carrying the name and exactly one credential referencing that user's
/// identifier. (That the login session then holds the new user is a clause
/// of `finish_register` itself.) The freshness of the identifier is an
/// assumption here: it comes from a random draw, and the store's invariant
/// deliberately does not carry it.
pub proof fn lemma_registration_end_to_end(
    pre: CredentialStore,
    post: CredentialStore,
    u: User,
    name: Seq<char>,
)
    requires
        u.username@ == name,
        !pre.has_username(name),
        forall|i: int|
            0 <= i < pre.credentials@.len() ==> (#[trigger] pre.credentials@[i]).user_uuid
                != u.uuid,
        post.users@ == pre.users@.push(u),
        post.credentials@ == pre.credentials@.push(post.credentials@.last()),
        post.credentials@.last().user_uuid == u.uuid,
    ensures
        post.has_username(name),
        forall|i: int, j: int|
            0 <= i < post.users@.len() && 0 <= j < post.users@.len() && (
            #[trigger] post.users@[i]).username@ == name && (#[trigger] post.users@[j]).username@
                == name ==> i == j,
        exists|k: int|
            0 <= k < post.credentials@.len() && (#[trigger] post.credentials@[k]).user_uuid
                == u.uuid,
        forall|k: int, l: int|
            0 <= k < post.credentials@.len() && 0 <= l < post.credentials@.len() && (
            #[trigger] post.credentials@[k]).user_uuid == u.uuid && (
            #[trigger] post.credentials@[l]).user_uuid == u.uuid ==> k == l,
{
    let last = post.users@.len() - 1;
    assert(post.users@[last] == u);
    assert forall|i: int|
        0 <= i < post.users@.len() && (#[trigger] post.users@[i]).username@ == name implies i
        == last by {
        if i < last {
            assert(post.users@[i] == pre.users@[i]);
            assert(pre.has_username(name));
        }
    }
    let clast = post.credentials@.len() - 1;
    assert(post.credentials@[clast].user_uuid == u.uuid);
    assert forall|k: int|
        0 <= k < post.credentials@.len() && (#[trigger] post.credentials@[k]).user_uuid
            == u.uuid implies k == clast by {
        if k < clast {
            assert(post.credentials@[k] == pre.credentials@[k]);
        }
    }
}

} // verus!
