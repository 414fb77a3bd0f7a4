//! The two server-held sessions: the short-lived challenge session that
//! carries ceremony state between the start and finish of one ceremony, and
//! the longer-lived login session that records which user a connection is
//! authenticated as.
//!
//! The challenge session is a keyed store with one slot per ceremony kind;
//! taking a slot reads and deletes it in one step, so consumed state cannot
//! be replayed. Expiry of abandoned slots is the session layer's concern and
//! sits with the code that holds one `ChallengeSession` per client.

use vstd::prelude::*;

use webauthn_rs::prelude::{PasskeyAuthentication, PasskeyRegistration};

verus! {

/// The pending state of a registration ceremony, written by the start step
/// and consumed by the finish step.
pub struct RegistrationSessionInfo {
    /// The username the ceremony was started for.
    pub username: String,
    /// The user identifier pre-allocated before the user row exists.
    pub user_unique_id: u128,
    /// The verifier's opaque in-progress ceremony state.
    pub reg_state: PasskeyRegistration,
}

/// The pending state of an authentication ceremony, written by the start
/// step and consumed by the finish step.
pub struct AuthenticationSessionInfo {
    /// The username the ceremony was started for.
    pub username: String,
    /// The identifier of the user attempting to authenticate.
    pub user_unique_id: u128,
    /// The verifier's opaque in-progress ceremony state.
    pub auth_state: PasskeyAuthentication,
}

/// The per-client challenge session: one slot per ceremony kind, each
/// consumed exactly once by the matching finish step.
pub struct ChallengeSession {
    pub registration: Option<RegistrationSessionInfo>,
    pub authentication: Option<AuthenticationSessionInfo>,
}

impl ChallengeSession {
    /// A session with both slots empty.
    pub fn new() -> (s: ChallengeSession)
        ensures
            s.registration is None,
            s.authentication is None,
    {
        ChallengeSession { registration: None, authentication: None }
    }

    /// Clears both slots, as a fresh ceremony start does with any state a
    /// previous ceremony left behind.
    pub fn clear(&mut self)
        ensures
            final(self).registration is None,
            final(self).authentication is None,
    {
        self.registration = None;
        self.authentication = None;
    }

    /// Writes the registration slot.
    pub fn put_registration(&mut self, info: RegistrationSessionInfo)
        ensures
            final(self).registration == Some(info),
            final(self).authentication == old(self).authentication,
    {
        self.registration = Some(info);
    }

    /// Reads and deletes the registration slot in one step: after the call
    /// the slot is empty, whatever it held.
    pub fn take_registration(&mut self) -> (r: Option<RegistrationSessionInfo>)
        ensures
            r == old(self).registration,
            final(self).registration is None,
            final(self).authentication == old(self).authentication,
    {
        self.registration.take()
    }

    /// Writes the authentication slot.
    pub fn put_authentication(&mut self, info: AuthenticationSessionInfo)
        ensures
            final(self).authentication == Some(info),
            final(self).registration == old(self).registration,
    {
        self.authentication = Some(info);
    }

    /// Reads and deletes the authentication slot in one step: after the
    /// call the slot is empty, whatever it held.
    pub fn take_authentication(&mut self) -> (r: Option<AuthenticationSessionInfo>)
        ensures
            r == old(self).authentication,
            final(self).authentication is None,
            final(self).registration == old(self).registration,
    {
        self.authentication.take()
    }
}

/// The login session of one connection: which user, if any, it is
/// authenticated as. Distinct from the challenge session and living on its
/// own, much longer, inactivity timeout.
pub struct LoginSession {
    pub user_id: Option<u64>,
}

impl LoginSession {
    /// A session that is not authenticated.
    pub fn new() -> (s: LoginSession)
        ensures
            s.user_id is None,
    {
        LoginSession { user_id: None }
    }

    /// Establishes the session for the given user.
    pub fn login(&mut self, user: &crate::store::User)
        ensures
            final(self).user_id == Some(user.id),
    {
        self.user_id = Some(user.id);
    }

    /// Clears the session, logging the user out.
    pub fn logout(&mut self)
        ensures
            final(self).user_id is None,
    {
        self.user_id = None;
    }
}

} // verus!
