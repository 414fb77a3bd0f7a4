//! The backend authenticator: turns a verified (or failed) authentication
//! ceremony into an authoritative `User`, and keeps stored credential
//! counters honest. A failed verification and an unrecognised credential
//! are deliberately indistinguishable to the caller: both come back as no
//! user, with nothing mutated.

use vstd::prelude::*;

use webauthn_rs::prelude::{AuthenticationResult, PasskeyAuthentication, PublicKeyCredential};
use webauthn_rs::Webauthn;

use crate::ceremony::{
    auth_result_cred_id, auth_result_counter, auth_result_needs_update, clone_passkey,
    encode_passkey, update_passkey, verify_authentication,
};
use crate::store::{bytes_eq, cred_matches, first_with_cred_id, CredentialStore, User};

verus! {

/// The errors the backend authenticator can end a request with; all are
/// request-fatal and none is retried.
#[derive(Debug)]
pub enum BackendAuthError {
    /// No stored credential carries the credential id the verified
    /// assertion speaks of.
    StoredCredentialFailure,
    /// The credential exists but no user owns it: a data-integrity
    /// violation, not silently repaired.
    OrphanedCredential,
    /// The asserted counter is not strictly ahead of the stored one: a
    /// possible cloned credential, rejected.
    CounterDiscrepancy,
    /// The refreshed credential material could not be serialised for
    /// persistence.
    CredentialUpdateFailure(serde_json::Error),
}

/// Whether the caller already knows who is authenticating.
///
/// The username-first flow knows the user before the ceremony finishes; an
/// autofill flow hands out the challenge before any username was entered
/// and only knows the pending user identifier, so the user is resolved from
/// the credential afterwards.
pub enum CredentialResolution {
    /// The user is already known.
    Known(User),
    /// Only the pending user identifier is known; the user is resolved
    /// from the credential the verified assertion names.
    Unknown(u128),
}

impl CredentialResolution {
    /// The identifier of the user attempting to authenticate.
    pub open spec fn spec_user_uuid(&self) -> u128 {
        match self {
            CredentialResolution::Known(u) => u.uuid,
            CredentialResolution::Unknown(id) => *id,
        }
    }

    /// The identifier of the user attempting to authenticate.
    pub fn user_uuid(&self) -> (r: u128)
        ensures
            r == self.spec_user_uuid(),
    {
        match self {
            CredentialResolution::Known(u) => u.uuid,
            CredentialResolution::Unknown(id) => *id,
        }
    }
}

/// Parameters for one run of the backend authenticator.
pub struct BackendAuthParameters {
    /// An in-progress passkey authentication state.
    pub auth_state: PasskeyAuthentication,
    /// The signed response the client handed back.
    pub challenge_response: PublicKeyCredential,
    /// Whether the user attempting to authenticate is already known.
    pub identity: CredentialResolution,
}

/// Every record of `pre` except possibly the one at `m` stands unchanged
/// in `post`.
pub open spec fn unchanged_except(
    pre: Seq<crate::store::Credential>,
    post: Seq<crate::store::Credential>,
    m: int,
) -> bool {
    forall|j: int| 0 <= j < pre.len() && j != m ==> post[j] == pre[j]
}

/// The position of the first credential owned by `uuid` that carries
/// `cred_id`, or `creds.len()` if there is none.
pub open spec fn first_match(creds: Seq<crate::store::Credential>, uuid: u128, cred_id: Seq<u8>) -> nat
    decreases creds.len(),
{
    if creds.len() == 0 {
        0
    } else if cred_matches(creds[0], uuid, cred_id) {
        0
    } else {
        1 + first_match(creds.subrange(1, creds.len() as int), uuid, cred_id)
    }
}

proof fn lemma_first_match_unique(
    creds: Seq<crate::store::Credential>,
    uuid: u128,
    cred_id: Seq<u8>,
    m: int,
)
    requires
        0 <= m <= creds.len(),
        m < creds.len() ==> cred_matches(creds[m], uuid, cred_id),
        forall|k: int| 0 <= k < m ==> !cred_matches(#[trigger] creds[k], uuid, cred_id),
    ensures
        first_match(creds, uuid, cred_id) == m,
    decreases creds.len(),
{
    if creds.len() == 0 {
    } else if cred_matches(creds[0], uuid, cred_id) {
        assert(m == 0);
    } else {
        assert(m >= 1);
        let t = creds.subrange(1, creds.len() as int);
        assert(forall|k: int|
            0 <= k < m - 1 ==> #[trigger] t[k] == creds[k + 1] && !cred_matches(
                creds[k + 1],
                uuid,
                cred_id,
            ));
        lemma_first_match_unique(t, uuid, cred_id, m - 1);
    }
}

/// Applies a verified assertion's counter to the stored credentials of the
/// user: the first credential of `user_uuid` that carries the asserted
/// credential id is brought to the asserted counter, and no other record is
/// touched. An asserted counter that has not advanced past the stored one
/// is rejected as a possible clone. When no stored credential matches,
/// nothing is updated and nothing fails.
pub fn update_credential_counter(
    store: &mut CredentialStore,
    user_uuid: u128,
    cred_id: &Vec<u8>,
    asserted: u32,
    res: &AuthenticationResult,
    now: u64,
) -> (r: Result<(), BackendAuthError>)
    requires
        old(store).wf(),
    ensures
        final(store).wf(),
        final(store).users@ == old(store).users@,
        ({
            let creds = old(store).credentials@;
            let m = first_match(creds, user_uuid, cred_id@) as int;
            if m == creds.len() {
                r is Ok && *final(store) == *old(store)
            } else if asserted <= creds[m].counter {
                r matches Err(BackendAuthError::CounterDiscrepancy)
                    && *final(store) == *old(store)
            } else {
                &&& (r is Ok || r matches Err(BackendAuthError::CredentialUpdateFailure(_)))
                &&& (r is Err ==> *final(store) == *old(store))
                &&& r is Ok ==> {
                    &&& final(store).credentials@.len() == creds.len()
                    &&& forall|j: int|
                        0 <= j < creds.len() && j != m ==> final(store).credentials@[j]
                            == creds[j]
                    &&& ({
                        let c = final(store).credentials@[m];
                        &&& c.id == creds[m].id
                        &&& c.user_uuid == creds[m].user_uuid
                        &&& c.cred_id@ == creds[m].cred_id@
                        &&& c.created_at == creds[m].created_at
                        &&& c.counter == asserted
                        &&& c.updated_at == now
                    })
                }
            }
        }),
{
    let n = store.credentials.len();
    let mut i: usize = 0;
    while i < n
        invariant
            i <= n,
            n == store.credentials@.len(),
            store.wf(),
            *store == *old(store),
            forall|k: int|
                0 <= k < i ==> !cred_matches(#[trigger] store.credentials@[k], user_uuid, cred_id@),
        decreases n - i,
    {
        if store.credentials[i].user_uuid == user_uuid && bytes_eq(
            &store.credentials[i].cred_id,
            cred_id,
        ) {
            proof {
                lemma_first_match_unique(store.credentials@, user_uuid, cred_id@, i as int);
            }
            let stored = store.credentials[i].counter;
            if asserted <= stored {
                return Err(BackendAuthError::CounterDiscrepancy);
            }
            let mut refreshed = clone_passkey(&store.credentials[i].passkey);
            // The verifier refreshes the opaque material; which record to
            // update, and to what counter, is decided by the comparisons
            // above, not by the call.
            update_passkey(&mut refreshed, res);
            let passkey_json = match encode_passkey(&refreshed) {
                Ok(j) => j,
                Err(e) => {
                    return Err(BackendAuthError::CredentialUpdateFailure(e));
                },
            };
            store.write_back_credential(i, asserted, refreshed, passkey_json, now);
            return Ok(());
        }
        i += 1;
    }
    proof {
        lemma_first_match_unique(store.credentials@, user_uuid, cred_id@, n as int);
    }
    Ok(())
}

/// Resolves the user a credential belongs to.
///
/// A user that is already known is returned as is. Otherwise the credential
/// is looked up by its id and its `user_uuid` followed to the user row; a
/// credential with no resolvable user is an integrity violation.
pub fn get_user_from_credentials(
    store: &CredentialStore,
    identity: CredentialResolution,
    cred_id: &Vec<u8>,
) -> (r: Result<Option<User>, BackendAuthError>)
    ensures
        identity matches CredentialResolution::Known(u) ==> r == Ok::<
            Option<User>,
            BackendAuthError,
        >(Some(u)),
        identity is Unknown ==> match r {
            Ok(opt) => opt matches Some(u) && ({
                let m = first_with_cred_id(store.credentials@, cred_id@) as int;
                &&& m < store.credentials@.len()
                &&& u.uuid == store.credentials@[m].user_uuid
                &&& exists|j: int|
                    0 <= j < store.users@.len() && #[trigger] store.users@[j] == u
            }),
            Err(BackendAuthError::StoredCredentialFailure) => !store.has_cred_id(cred_id@),
            Err(BackendAuthError::OrphanedCredential) => ({
                let m = first_with_cred_id(store.credentials@, cred_id@) as int;
                &&& m < store.credentials@.len()
                &&& store.credentials@[m].cred_id@ == cred_id@
                &&& !store.has_user_uuid(store.credentials@[m].user_uuid)
            }),
            Err(_) => false,
        },
{
    match identity {
        CredentialResolution::Known(user) => Ok(Some(user)),
        CredentialResolution::Unknown(_) => {
            let credential = match store.get_credential_by_cred_id(cred_id) {
                Some(c) => c,
                None => {
                    return Err(BackendAuthError::StoredCredentialFailure);
                },
            };
            match store.get_user_by_uuid(credential.user_uuid) {
                Some(user) => Ok(Some(user)),
                None => Err(BackendAuthError::OrphanedCredential),
            }
        },
    }
}

/// Runs the backend authenticator over a finished ceremony.
///
/// The verifier's cryptographic failure comes back as no user with the
/// store untouched; a verified assertion first brings the stored counter
/// forward where the verifier asks for it, then resolves the user. Counters
/// never move backwards, and at most one stored credential is touched.
pub fn authenticate(
    webauthn: &Webauthn,
    store: &mut CredentialStore,
    params: BackendAuthParameters,
    now: u64,
) -> (r: Result<Option<User>, BackendAuthError>)
    requires
        old(store).wf(),
    ensures
        final(store).wf(),
        final(store).users@ == old(store).users@,
        final(store).credentials@.len() == old(store).credentials@.len(),
        (match r {
            Ok(opt) => opt is None ==> *final(store) == *old(store),
            Err(_) => true,
        }),
        r matches Err(BackendAuthError::CounterDiscrepancy) ==> *final(store) == *old(store),
        r matches Err(BackendAuthError::CredentialUpdateFailure(_)) ==> *final(store)
            == *old(store),
        forall|j: int|
            0 <= j < old(store).credentials@.len() ==> {
                let c = #[trigger] final(store).credentials@[j];
                let o = old(store).credentials@[j];
                c.id == o.id && c.user_uuid == o.user_uuid && c.cred_id@ == o.cred_id@
                    && c.created_at == o.created_at && c.counter >= o.counter
            },
        exists|m: int|
            #[trigger] unchanged_except(old(store).credentials@, final(store).credentials@, m),
        (match r {
            Ok(opt) => match opt {
                Some(u) => params.identity == CredentialResolution::Known(u) || exists|j: int|
                    0 <= j < old(store).users@.len() && #[trigger] old(store).users@[j] == u,
                None => true,
            },
            Err(_) => true,
        }),
{
    let auth_result = match verify_authentication(
        webauthn,
        &params.challenge_response,
        &params.auth_state,
    ) {
        Ok(res) => res,
        Err(_) => {
            proof {
                assert(unchanged_except(
                    old(store).credentials@,
                    store.credentials@,
                    old(store).credentials@.len() as int,
                ));
            }
            return Ok(None);
        },
    };
    let cred_id = auth_result_cred_id(&auth_result);
    let asserted = auth_result_counter(&auth_result);
    let user_uuid = params.identity.user_uuid();
    if auth_result_needs_update(&auth_result) {
        match update_credential_counter(store, user_uuid, &cred_id, asserted, &auth_result, now) {
            Ok(()) => {
                proof {
                    let creds = old(store).credentials@;
                    let m = first_match(creds, user_uuid, cred_id@) as int;
                    assert(unchanged_except(creds, store.credentials@, m));
                }
            },
            Err(e) => {
                proof {
                    assert(unchanged_except(
                        old(store).credentials@,
                        store.credentials@,
                        old(store).credentials@.len() as int,
                    ));
                }
                return Err(e);
            },
        }
    } else {
        proof {
            assert(unchanged_except(
                old(store).credentials@,
                store.credentials@,
                old(store).credentials@.len() as int,
            ));
        }
    }
    match get_user_from_credentials(store, params.identity, &cred_id) {
        Ok(user) => Ok(user),
        Err(e) => Err(e),
    }
}

} // verus!
