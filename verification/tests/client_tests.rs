use woof::client::{client_update, init_model, ClientAction, ClientEvent, ViewState};
use woof::pages::{page_check_slug, page_render, page_select_paste, HtmlPageError, Paste};
use woof::slug::{Slug, SlugString};

#[test]
fn a_fresh_component_waits_for_input() {
    let m = init_model();
    assert_eq!(m.input_value, "");
    assert_eq!(m.last_username, "");
    assert!(matches!(m.view_state, ViewState::Init));
}

#[test]
fn an_empty_username_never_starts_a_ceremony() {
    let mut m = init_model();
    let a = client_update(&mut m, ClientEvent::BeginRegister);
    assert!(matches!(a, ClientAction::Stay));
    match &m.view_state {
        ViewState::Error(msg) => assert_eq!(msg, "Username cannot be empty"),
        _ => panic!("expected an error view"),
    }
    let a = client_update(&mut m, ClientEvent::BeginAuthentication);
    assert!(matches!(a, ClientAction::Stay));
}

#[test]
fn registering_records_the_username_and_requests_a_challenge() {
    let mut m = init_model();
    client_update(&mut m, ClientEvent::InputChanged("alice".to_string()));
    let a = client_update(&mut m, ClientEvent::BeginRegister);
    match a {
        ClientAction::RequestRegisterChallenge(u) => assert_eq!(u, "alice"),
        _ => panic!("expected a registration request"),
    }
    assert_eq!(m.last_username, "alice");
    assert!(matches!(m.view_state, ViewState::Waiting));
}

#[test]
fn the_ceremony_steps_chain_their_actions() {
    let mut m = init_model();
    client_update(&mut m, ClientEvent::InputChanged("alice".to_string()));
    client_update(&mut m, ClientEvent::BeginAuthentication);
    assert!(matches!(
        client_update(&mut m, ClientEvent::AuthenticationChallengeReceived),
        ClientAction::SignAuthenticationChallenge
    ));
    assert!(matches!(
        client_update(&mut m, ClientEvent::AuthenticationSigned),
        ClientAction::SubmitAuthentication
    ));
    assert!(matches!(
        client_update(&mut m, ClientEvent::RegisterChallengeReceived),
        ClientAction::SignRegisterChallenge
    ));
    assert!(matches!(
        client_update(&mut m, ClientEvent::RegisterSigned),
        ClientAction::SubmitRegistration
    ));
}

#[test]
fn success_shows_the_last_username_and_redirects() {
    let mut m = init_model();
    client_update(&mut m, ClientEvent::InputChanged("alice".to_string()));
    client_update(&mut m, ClientEvent::BeginAuthentication);
    let a = client_update(&mut m, ClientEvent::CeremonySucceeded);
    assert!(matches!(a, ClientAction::RedirectAfterSuccess));
    match &m.view_state {
        ViewState::Success(u) => assert_eq!(u, "alice"),
        _ => panic!("expected a success view"),
    }
}

#[test]
fn a_failure_shows_its_message() {
    let mut m = init_model();
    let a = client_update(&mut m, ClientEvent::Failed("Authentication cancelled".to_string()));
    assert!(matches!(a, ClientAction::Stay));
    match &m.view_state {
        ViewState::Error(msg) => assert_eq!(msg, "Authentication cancelled"),
        _ => panic!("expected an error view"),
    }
}

#[test]
fn paste_page_rejects_a_malformed_slug() {
    let r = page_check_slug("not a slug");
    match r {
        Err(HtmlPageError::InvalidPath(p)) => {
            assert_eq!(p, "not a slug");
            assert_eq!(HtmlPageError::InvalidPath(p).to_status_code(), 400);
        },
        _ => panic!("expected an invalid-path error"),
    }
    assert!(page_check_slug("this-is-a-slug").is_ok());
}

#[test]
fn paste_page_reads_missing_or_disabled_slugs_as_not_found() {
    assert!(matches!(page_select_paste(None), Err(HtmlPageError::NotFound)));
    let disabled = Slug {
        id: 1,
        file_id: None,
        paste_id: Some(5),
        slug: SlugString::new("this-is-a-slug").unwrap(),
        enabled: None,
        created_at: 1000,
    };
    assert!(matches!(page_select_paste(Some(disabled)), Err(HtmlPageError::NotFound)));
    let enabled = Slug {
        id: 1,
        file_id: None,
        paste_id: Some(5),
        slug: SlugString::new("this-is-a-slug").unwrap(),
        enabled: Some(1200),
        created_at: 1000,
    };
    assert_eq!(page_select_paste(Some(enabled)).unwrap(), Some(5));
}

#[test]
fn paste_page_shows_the_paste_content() {
    assert!(matches!(page_render(None), Err(HtmlPageError::NotFound)));
    let paste = Paste {
        id: 5,
        user_id: None,
        title: Some("hello".to_string()),
        content: "hello world".to_string(),
        created_at: 1000,
        expires_at: None,
    };
    let page = page_render(Some(paste)).unwrap();
    assert_eq!(page.paste_card.content, "hello world");
    assert_eq!(HtmlPageError::NotFound.to_status_code(), 404);
    assert_eq!(HtmlPageError::DatabaseError.to_status_code(), 500);
}
