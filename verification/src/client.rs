//! The decisions of the browser-side authentication component, as a state
//! machine over plain events: given the current model and an event, the
//! next model and the action to perform. The surrounding code performs the
//! action (an HTTP request, the browser's credential prompt, a redirect)
//! and hands the outcome back as the next event.

use vstd::prelude::*;

verus! {

/// The states the authentication view can be in.
pub enum ViewState {
    /// The initial state of the view.
    Init,
    /// Waiting for a response from the user or the server.
    Waiting,
    /// Authentication succeeded; holds the authenticated username.
    Success(String),
    /// An error occurred; holds the message to display.
    Error(String),
}

/// The state of the authentication component.
pub struct AuthModel {
    /// The current value of the username input box.
    pub input_value: String,
    /// The last username a ceremony was started for.
    pub last_username: String,
    /// The current state of the view.
    pub view_state: ViewState,
}

/// An event the component reacts to.
pub enum ClientEvent {
    /// The username input box changed.
    InputChanged(String),
    /// The user pressed the register button.
    BeginRegister,
    /// The server answered a registration start with a challenge.
    RegisterChallengeReceived,
    /// The browser produced a signed registration response.
    RegisterSigned,
    /// The user pressed the login button.
    BeginAuthentication,
    /// The server answered an authentication start with a challenge.
    AuthenticationChallengeReceived,
    /// The browser produced a signed assertion.
    AuthenticationSigned,
    /// The ceremony finished successfully.
    CeremonySucceeded,
    /// Something failed; holds the message to display.
    Failed(String),
    /// Nothing happened.
    NoOp,
}

/// The action the surroundings perform after a step.
pub enum ClientAction {
    /// Nothing to do.
    Stay,
    /// Ask the server to start a registration for this username.
    RequestRegisterChallenge(String),
    /// Ask the browser to sign the registration challenge.
    SignRegisterChallenge,
    /// Send the signed registration response to the server.
    SubmitRegistration,
    /// Ask the server to start an authentication for this username.
    RequestAuthenticationChallenge(String),
    /// Ask the browser to sign the authentication challenge.
    SignAuthenticationChallenge,
    /// Send the signed assertion to the server.
    SubmitAuthentication,
    /// Leave for the page the user came for.
    RedirectAfterSuccess,
}

/// The model a freshly started component holds.
pub fn init_model() -> (m: AuthModel)
    ensures
        m.input_value@ =~= Seq::<char>::empty(),
        m.last_username@ =~= Seq::<char>::empty(),
        m.view_state is Init,
{
    AuthModel { input_value: String::new(), last_username: String::new(), view_state: ViewState::Init }
}

/// One step of the component: reacts to `event`, updating the model and
/// returning the action to perform.
///
/// A ceremony only starts on a non-empty username; starting one records it
/// as the last username and shows the waiting view. A success shows the
/// last username and redirects; a failure shows its message.
pub fn client_update(model: &mut AuthModel, event: ClientEvent) -> (a: ClientAction)
    ensures
        match event {
            ClientEvent::InputChanged(text) => final(model).input_value == text && final(model).last_username == old(model).last_username && final(model).view_state == old(model).view_state && a is Stay,
            ClientEvent::BeginRegister => {
                if old(model).input_value@.len() == 0 {
                    &&& final(model).view_state matches ViewState::Error(msg) && msg@
                        == "Username cannot be empty"@
                    &&& final(model).last_username == old(model).last_username
                    &&& a is Stay
                } else {
                    &&& final(model).view_state is Waiting
                    &&& final(model).last_username == old(model).input_value
                    &&& a matches ClientAction::RequestRegisterChallenge(u) && u == old(model).input_value
                }
            },
            ClientEvent::BeginAuthentication => {
                if old(model).input_value@.len() == 0 {
                    &&& final(model).view_state matches ViewState::Error(msg) && msg@
                        == "Username cannot be empty"@
                    &&& final(model).last_username == old(model).last_username
                    &&& a is Stay
                } else {
                    &&& final(model).view_state is Waiting
                    &&& final(model).last_username == old(model).input_value
                    &&& a matches ClientAction::RequestAuthenticationChallenge(u) && u == old(model).input_value
                }
            },
            ClientEvent::RegisterChallengeReceived => *final(model) == *old(model)
                && a is SignRegisterChallenge,
            ClientEvent::RegisterSigned => *final(model) == *old(model)
                && a is SubmitRegistration,
            ClientEvent::AuthenticationChallengeReceived => *final(model) == *old(model)
                && a is SignAuthenticationChallenge,
            ClientEvent::AuthenticationSigned => *final(model) == *old(model)
                && a is SubmitAuthentication,
            ClientEvent::CeremonySucceeded => {
                &&& final(model).view_state matches ViewState::Success(u) && u == old(model).last_username
                &&& final(model).last_username == old(model).last_username
                &&& final(model).input_value == old(model).input_value
                &&& a is RedirectAfterSuccess
            },
            ClientEvent::Failed(msg) => {
                &&& final(model).view_state matches ViewState::Error(m) && m == msg
                &&& final(model).last_username == old(model).last_username
                &&& final(model).input_value == old(model).input_value
                &&& a is Stay
            },
            ClientEvent::NoOp => *final(model) == *old(model) && a is Stay,
        },
{
    match event {
        ClientEvent::InputChanged(text) => {
            model.input_value = text;
            ClientAction::Stay
        },
        ClientEvent::BeginRegister => {
            if model.input_value.as_str().is_empty() {
                model.view_state = ViewState::Error("Username cannot be empty".to_owned());
                ClientAction::Stay
            } else {
                model.view_state = ViewState::Waiting;
                let username = model.input_value.clone();
                model.last_username = model.input_value.clone();
                ClientAction::RequestRegisterChallenge(username)
            }
        },
        ClientEvent::BeginAuthentication => {
            if model.input_value.as_str().is_empty() {
                model.view_state = ViewState::Error("Username cannot be empty".to_owned());
                ClientAction::Stay
            } else {
                model.view_state = ViewState::Waiting;
                let username = model.input_value.clone();
                model.last_username = model.input_value.clone();
                ClientAction::RequestAuthenticationChallenge(username)
            }
        },
        ClientEvent::RegisterChallengeReceived => ClientAction::SignRegisterChallenge,
        ClientEvent::RegisterSigned => ClientAction::SubmitRegistration,
        ClientEvent::AuthenticationChallengeReceived => ClientAction::SignAuthenticationChallenge,
        ClientEvent::AuthenticationSigned => ClientAction::SubmitAuthentication,
        ClientEvent::CeremonySucceeded => {
            model.view_state = ViewState::Success(model.last_username.clone());
            ClientAction::RedirectAfterSuccess
        },
        ClientEvent::Failed(msg) => {
            model.view_state = ViewState::Error(msg);
            ClientAction::Stay
        },
        ClientEvent::NoOp => ClientAction::Stay,
    }
}

} // verus!
