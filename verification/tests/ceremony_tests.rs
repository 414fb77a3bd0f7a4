use webauthn_rs::prelude::{
    AttestationFormat, COSEAlgorithm, COSEEC2Key, COSEKey, COSEKeyType, ECDSACurve,
    ParsedAttestation, Passkey, PublicKeyCredential, RegisterPublicKeyCredential,
};
use webauthn_rs_core::proto::{Credential as VerifierCredential, RegisteredExtensions};
use webauthn_rs_proto::auth::AuthenticatorAssertionResponseRaw;
use webauthn_rs_proto::attest::AuthenticatorAttestationResponseRaw;
use webauthn_rs_proto::extensions::{
    AuthenticationExtensionsClientOutputs, RegistrationExtensionsClientOutputs,
};
use webauthn_rs_proto::UserVerificationPolicy;

use woof::authentication::{finish_authentication, start_authentication, PasskeyAuthError};
use woof::passkeys::PasskeyAuthState;
use woof::registration::{finish_register, start_register, PasskeyRegisterError};
use woof::session::{ChallengeSession, LoginSession};
use woof::store::CredentialStore;

fn relying_party() -> PasskeyAuthState {
    PasskeyAuthState::new("example.com".to_string(), "https://localhost".to_string())
        .expect("a plain hostname forms a valid origin")
}

fn ceremony_passkey(cred_id: &[u8]) -> Passkey {
    let cred = VerifierCredential {
        cred_id: cred_id.to_vec().into(),
        cred: COSEKey {
            type_: COSEAlgorithm::ES256,
            key: COSEKeyType::EC_EC2(COSEEC2Key {
                curve: ECDSACurve::SECP256R1,
                x: vec![7u8; 32].into(),
                y: vec![9u8; 32].into(),
            }),
        },
        counter: 0,
        transports: None,
        user_verified: false,
        backup_eligible: false,
        backup_state: false,
        registration_policy: UserVerificationPolicy::Required,
        extensions: RegisteredExtensions::none(),
        attestation: ParsedAttestation::default(),
        attestation_format: AttestationFormat::None,
    };
    cred.into()
}

fn store_with_user(name: &str, uuid: u128, cred_id: &[u8]) -> CredentialStore {
    let mut store = CredentialStore::new();
    let passkey = ceremony_passkey(cred_id);
    let json = serde_json::to_string(&passkey).unwrap();
    store
        .insert_user_with_credential(name.to_string(), uuid, cred_id.to_vec(), passkey, json, 1000)
        .unwrap();
    store
}

fn unsigned_registration_response() -> RegisterPublicKeyCredential {
    RegisterPublicKeyCredential {
        id: "AQIDBA".to_string(),
        raw_id: vec![1u8, 2, 3, 4].into(),
        response: AuthenticatorAttestationResponseRaw {
            attestation_object: vec![0u8; 16].into(),
            client_data_json: vec![0u8; 16].into(),
            transports: None,
        },
        type_: "public-key".to_string(),
        extensions: RegistrationExtensionsClientOutputs::default(),
    }
}

fn unsigned_assertion_response() -> PublicKeyCredential {
    PublicKeyCredential {
        id: "AQIDBA".to_string(),
        raw_id: vec![1u8, 2, 3, 4].into(),
        response: AuthenticatorAssertionResponseRaw {
            authenticator_data: vec![0u8; 16].into(),
            client_data_json: vec![0u8; 16].into(),
            signature: vec![0u8; 16].into(),
            user_handle: None,
        },
        extensions: AuthenticationExtensionsClientOutputs::default(),
        type_: "public-key".to_string(),
    }
}

#[test]
fn errors_map_to_their_status_codes() {
    assert_eq!(PasskeyRegisterError::UserAlreadyExists.status_code(), 409);
    assert_eq!(PasskeyRegisterError::MissingSessionInfo.status_code(), 400);
    assert_eq!(PasskeyAuthError::UserDoesNotExist.status_code(), 404);
    assert_eq!(PasskeyAuthError::MissingSessionInfo.status_code(), 400);
    assert_eq!(PasskeyAuthError::BackendAuthInvalid.status_code(), 400);
}

#[test]
fn relying_party_keeps_its_configuration() {
    let state = relying_party();
    assert_eq!(state.hostname, "example.com");
    assert_eq!(state.appid, "https://localhost");
    assert!(PasskeyAuthState::new("not a hostname!".to_string(), String::new()).is_none());
}

#[test]
fn start_register_issues_a_fresh_challenge() {
    let state = relying_party();
    let store = CredentialStore::new();
    let mut session = ChallengeSession::new();
    let ccr = start_register(&state, &store, &mut session, "alice".to_string()).unwrap();
    assert_eq!(ccr.public_key.rp.id, "example.com");
    assert!(ccr.public_key.challenge.len() >= 16);
    let pending = session.registration.as_ref().unwrap();
    assert_eq!(pending.username, "alice");
}

#[test]
fn start_register_rejects_a_taken_username_before_any_ceremony() {
    let state = relying_party();
    let store = store_with_user("alice", 7, &[1, 2, 3, 4]);
    let mut session = ChallengeSession::new();
    let r = start_register(&state, &store, &mut session, "alice".to_string());
    assert!(matches!(r, Err(PasskeyRegisterError::UserAlreadyExists)));
    assert!(session.registration.is_none());
}

#[test]
fn start_register_clears_previous_ceremony_state() {
    let state = relying_party();
    let store = CredentialStore::new();
    let mut session = ChallengeSession::new();
    start_register(&state, &store, &mut session, "alice".to_string()).unwrap();
    assert!(session.registration.is_some());
    // A new start for the same client wins over the old one.
    start_register(&state, &store, &mut session, "alicia".to_string()).unwrap();
    assert_eq!(session.registration.as_ref().unwrap().username, "alicia");
}

#[test]
fn finish_register_consumes_the_session_exactly_once() {
    let state = relying_party();
    let mut store = CredentialStore::new();
    let mut session = ChallengeSession::new();
    let mut login = LoginSession::new();
    start_register(&state, &store, &mut session, "alice".to_string()).unwrap();

    // An unsigned response fails verification; nothing is persisted.
    let r = finish_register(&state, &mut store, &mut session, &mut login,
        &unsigned_registration_response(), 2000);
    assert!(matches!(r, Err(PasskeyRegisterError::RegistrationVerifyFailure(_))));
    assert_eq!(store.users.len(), 0);
    assert_eq!(store.credentials.len(), 0);
    assert!(login.user_id.is_none());

    // The ceremony state was consumed: a second finish has no session.
    let r = finish_register(&state, &mut store, &mut session, &mut login,
        &unsigned_registration_response(), 2000);
    assert!(matches!(r, Err(PasskeyRegisterError::MissingSessionInfo)));
}

#[test]
fn finish_register_without_a_start_is_an_error() {
    let state = relying_party();
    let mut store = CredentialStore::new();
    let mut session = ChallengeSession::new();
    let mut login = LoginSession::new();
    let r = finish_register(&state, &mut store, &mut session, &mut login,
        &unsigned_registration_response(), 2000);
    assert!(matches!(r, Err(PasskeyRegisterError::MissingSessionInfo)));
}

#[test]
fn start_authentication_for_an_unknown_user_writes_no_state() {
    let state = relying_party();
    let store = CredentialStore::new();
    let mut session = ChallengeSession::new();
    let r = start_authentication(&state, &store, &mut session, "bob".to_string());
    assert!(matches!(r, Err(PasskeyAuthError::UserDoesNotExist)));
    assert!(session.authentication.is_none());
}

#[test]
fn start_authentication_offers_the_stored_credentials() {
    let state = relying_party();
    let store = store_with_user("alice", 7, &[1, 2, 3, 4]);
    let mut session = ChallengeSession::new();
    let rcr = start_authentication(&state, &store, &mut session, "alice".to_string()).unwrap();
    assert!(rcr.public_key.challenge.len() >= 16);
    assert_eq!(rcr.public_key.allow_credentials.len(), 1);
    assert_eq!(rcr.public_key.allow_credentials[0].id.as_slice(), &[1, 2, 3, 4]);
    let pending = session.authentication.as_ref().unwrap();
    assert_eq!(pending.username, "alice");
    assert_eq!(pending.user_unique_id, 7);
}

#[test]
fn failed_verification_mutates_nothing_however_often_it_is_tried() {
    let state = relying_party();
    let mut store = store_with_user("alice", 7, &[1, 2, 3, 4]);
    let mut session = ChallengeSession::new();
    let mut login = LoginSession::new();

    for _ in 0..2 {
        start_authentication(&state, &store, &mut session, "alice".to_string()).unwrap();
        let r = finish_authentication(&state, &mut store, &mut session, &mut login,
            unsigned_assertion_response(), 3000);
        assert!(matches!(r, Err(PasskeyAuthError::BackendAuthInvalid)));
        // No counter update, no session establishment.
        assert_eq!(store.credentials[0].counter, 0);
        assert_eq!(store.credentials[0].updated_at, 1000);
        assert!(login.user_id.is_none());
        assert!(session.authentication.is_none());
    }

    // Without a fresh start the ceremony state is gone.
    let r = finish_authentication(&state, &mut store, &mut session, &mut login,
        unsigned_assertion_response(), 3000);
    assert!(matches!(r, Err(PasskeyAuthError::MissingSessionInfo)));
}
