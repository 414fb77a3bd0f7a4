use webauthn_rs::prelude::{
    AttestationFormat, AuthenticationResult, COSEAlgorithm, COSEEC2Key, COSEKey, COSEKeyType,
    ECDSACurve, ParsedAttestation, Passkey,
};
use webauthn_rs_core::proto::{Credential as VerifierCredential, RegisteredExtensions};
use webauthn_rs_proto::UserVerificationPolicy;

use woof::backend::{
    get_user_from_credentials, update_credential_counter, BackendAuthError, CredentialResolution,
};
use woof::session::{ChallengeSession, LoginSession};
use woof::store::{CredentialStore, StoreError};

fn sample_passkey(cred_id: &[u8]) -> Passkey {
    let cred = VerifierCredential {
        cred_id: cred_id.to_vec().into(),
        cred: COSEKey {
            type_: COSEAlgorithm::ES256,
            key: COSEKeyType::EC_EC2(COSEEC2Key {
                curve: ECDSACurve::SECP256R1,
                x: vec![7u8; 32].into(),
                y: vec![9u8; 32].into(),
            }),
        },
        counter: 0,
        transports: None,
        user_verified: false,
        backup_eligible: false,
        backup_state: false,
        registration_policy: UserVerificationPolicy::Required,
        extensions: RegisteredExtensions::none(),
        attestation: ParsedAttestation::default(),
        attestation_format: AttestationFormat::None,
    };
    cred.into()
}

fn assertion_result(cred_id_b64: &str, counter: u32, needs_update: bool) -> AuthenticationResult {
    let json = format!(
        r#"{{"cred_id":"{}","needs_update":{},"user_verified":false,"backup_state":false,"backup_eligible":false,"counter":{},"extensions":{{}}}}"#,
        cred_id_b64, needs_update, counter
    );
    serde_json::from_str(&json).unwrap()
}

fn store_with_alice() -> CredentialStore {
    let mut store = CredentialStore::new();
    let passkey = sample_passkey(&[1, 2, 3, 4]);
    let json = serde_json::to_string(&passkey).unwrap();
    store
        .insert_user_with_credential("alice".to_string(), 7, vec![1, 2, 3, 4], passkey, json, 1000)
        .unwrap();
    store
}

#[test]
fn insert_and_lookup_round_trip() {
    let store = store_with_alice();
    let user = store.get_user_by_username(&"alice".to_string()).unwrap();
    assert_eq!(user.id, 0);
    assert_eq!(user.uuid, 7);
    assert_eq!(user.created_at, 1000);
    assert!(user.last_authentication.is_none());
    assert!(store.get_user_by_uuid(7).is_some());
    assert!(store.get_user_by_id(0).is_some());
    assert!(store.get_user_by_id(1).is_none());
    assert_eq!(store.credentials.len(), 1);
    assert_eq!(store.credentials[0].counter, 0);
    assert_eq!(store.credentials[0].user_uuid, 7);
}

#[test]
fn duplicate_username_is_rejected_atomically() {
    let mut store = store_with_alice();
    let passkey = sample_passkey(&[9, 9, 9]);
    let json = serde_json::to_string(&passkey).unwrap();
    let r = store.insert_user_with_credential(
        "alice".to_string(),
        8,
        vec![9, 9, 9],
        passkey,
        json,
        2000,
    );
    assert!(matches!(r, Err(StoreError::UsernameTaken)));
    // Nothing was inserted: neither a user nor a credential row.
    assert_eq!(store.users.len(), 1);
    assert_eq!(store.credentials.len(), 1);
}

#[test]
fn credential_lookup_finds_by_id_bytes() {
    let store = store_with_alice();
    let found = store.get_credential_by_cred_id(&vec![1, 2, 3, 4]).unwrap();
    assert_eq!(found.user_uuid, 7);
    assert!(store.get_credential_by_cred_id(&vec![5, 5]).is_none());
    let owned = store.get_credentials_for_user(7);
    assert_eq!(owned.len(), 1);
    assert_eq!(store.get_credentials_for_user(8).len(), 0);
}

#[test]
fn counter_update_touches_exactly_one_credential() {
    let mut store = store_with_alice();
    // A second authenticator on the same account.
    let other = sample_passkey(&[5, 6, 7, 8]);
    let other_json = serde_json::to_string(&other).unwrap();
    store.insert_credential(7, vec![5, 6, 7, 8], other, other_json, 1500);

    // The assertion asserts counter 6 for the second credential:
    // [5,6,7,8] is "BQYHCA" in url-safe base64.
    let res = assertion_result("BQYHCA", 6, true);
    let r = update_credential_counter(&mut store, 7, &vec![5, 6, 7, 8], 6, &res, 2000);
    assert!(r.is_ok());
    assert_eq!(store.credentials[1].counter, 6);
    assert_eq!(store.credentials[1].updated_at, 2000);
    // The first credential is untouched.
    assert_eq!(store.credentials[0].counter, 0);
    assert_eq!(store.credentials[0].updated_at, 1000);
}

#[test]
fn stale_counter_is_rejected_as_discrepancy() {
    let mut store = store_with_alice();
    let res = assertion_result("AQIDBA", 5, true);
    assert!(update_credential_counter(&mut store, 7, &vec![1, 2, 3, 4], 5, &res, 2000).is_ok());
    assert_eq!(store.credentials[0].counter, 5);

    // A replayed assertion with the same counter does not advance it.
    let replay = assertion_result("AQIDBA", 5, true);
    let r = update_credential_counter(&mut store, 7, &vec![1, 2, 3, 4], 5, &replay, 3000);
    assert!(matches!(r, Err(BackendAuthError::CounterDiscrepancy)));
    assert_eq!(store.credentials[0].counter, 5);
    assert_eq!(store.credentials[0].updated_at, 2000);
}

#[test]
fn unknown_credential_update_changes_nothing() {
    let mut store = store_with_alice();
    let res = assertion_result("Cg", 3, true);
    assert!(update_credential_counter(&mut store, 7, &vec![10], 3, &res, 2000).is_ok());
    assert_eq!(store.credentials[0].counter, 0);
}

#[test]
fn user_resolution_follows_the_credential() {
    let store = store_with_alice();
    // A user that is already known is passed through.
    let alice = store.get_user_by_username(&"alice".to_string()).unwrap();
    let known =
        get_user_from_credentials(&store, CredentialResolution::Known(alice), &vec![1, 2, 3, 4])
            .unwrap();
    assert_eq!(known.unwrap().username, "alice");
    // An unknown user is resolved from the credential id.
    let resolved =
        get_user_from_credentials(&store, CredentialResolution::Unknown(7), &vec![1, 2, 3, 4])
            .unwrap();
    assert_eq!(resolved.unwrap().username, "alice");
    // A credential nobody stored cannot be resolved.
    let missing = get_user_from_credentials(&store, CredentialResolution::Unknown(7), &vec![9]);
    assert!(matches!(missing, Err(BackendAuthError::StoredCredentialFailure)));
}

#[test]
fn orphaned_credential_is_an_integrity_error() {
    let mut store = store_with_alice();
    let orphan = sample_passkey(&[42]);
    let orphan_json = serde_json::to_string(&orphan).unwrap();
    // No user carries uuid 99: this credential has no owner.
    store.insert_credential(99, vec![42], orphan, orphan_json, 1500);
    let r = get_user_from_credentials(&store, CredentialResolution::Unknown(99), &vec![42]);
    assert!(matches!(r, Err(BackendAuthError::OrphanedCredential)));
}

#[test]
fn challenge_session_slots_are_single_use() {
    let mut session = ChallengeSession::new();
    assert!(session.take_registration().is_none());
    assert!(session.take_authentication().is_none());
    session.clear();
    assert!(session.registration.is_none());
    assert!(session.authentication.is_none());
}

#[test]
fn login_session_tracks_the_authenticated_user() {
    let store = store_with_alice();
    let alice = store.get_user_by_username(&"alice".to_string()).unwrap();
    let mut login = LoginSession::new();
    assert!(login.user_id.is_none());
    login.login(&alice);
    assert_eq!(login.user_id, Some(0));
    login.logout();
    assert!(login.user_id.is_none());
}
