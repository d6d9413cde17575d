//! Data carried through the session state machine: the remote auth
//! configuration, the authenticated-user profile, the session states, the
//! events the environment reports, and the actions the controller requests.

use vstd::prelude::*;

verus! {

/// Remote auth configuration, fetched once at startup and immutable after
/// receipt: the identity-provider tenant domain and the client identifier.
#[derive(Debug, PartialEq, Eq)]
pub struct AuthConfig {
    pub domain: String,
    pub client_id: String,
}

/// Profile of the authenticated user, as the identity provider reports it
/// after an initialization call that found an existing session.
#[derive(Debug, PartialEq, Eq)]
pub struct UserProfile {
    pub nickname: String,
    pub name: String,
    pub picture: String,
    pub updated_at: String,
    pub email: String,
    pub email_verified: bool,
    pub sub: String,
}

/// A network or fetch failure while loading the auth configuration, reduced
/// to the message that is logged.
#[derive(Debug, PartialEq, Eq)]
pub struct FetchError {
    pub message: String,
}

/// An identity-provider failure (initialization, redirect, or logout),
/// reduced to the message that is logged.
#[derive(Debug, PartialEq, Eq)]
pub struct AuthError {
    pub message: String,
}

/// What a successful identity-client initialization handed back: no session
/// at all, a well-formed profile, or a session value whose profile payload
/// could not be decoded.
#[derive(Debug, PartialEq, Eq)]
pub enum InitPayload {
    Absent,
    Profile(UserProfile),
    Malformed(AuthError),
}

/// The controller's current authentication phase.  A user profile is held
/// only in `Authenticated`, so its presence in any other phase is ruled out
/// by construction.
#[derive(Debug, PartialEq, Eq)]
pub enum SessionState {
    Uninitialized,
    ConfigLoaded(AuthConfig),
    Authenticated(UserProfile),
    Anonymous,
}

/// A completed piece of outside work, or a user request, reported to the
/// controller.  Each event is processed atomically; no two overlap.
#[derive(Debug, PartialEq, Eq)]
pub enum Event {
    /// The configuration fetch finished.
    ConfigFetched(Result<AuthConfig, FetchError>),
    /// The identity-client initialization finished.
    AuthInitialized(Result<InitPayload, AuthError>),
    /// The user asked to sign up.
    SignUpRequested,
    /// The user asked to log in.
    LogInRequested,
    /// The user asked to log out.
    LogOutRequested,
    /// The sign-up redirect finished (it only ever reports a failure, since
    /// success navigates the browser away).
    SignUpRedirectDone(Result<(), AuthError>),
    /// The log-in redirect finished.
    LogInRedirectDone(Result<(), AuthError>),
    /// The logout call finished.
    LogOutDone(Result<(), AuthError>),
}

/// Outside work the controller asks the environment to perform in response
/// to an event.  The environment reports the outcome back as an [`Event`].
#[derive(Debug, PartialEq, Eq)]
pub enum Action {
    /// Initialize the identity client with the loaded configuration.
    InitAuth { domain: String, client_id: String },
    /// Redirect the browser to the sign-up page.
    RedirectToSignUp,
    /// Redirect the browser to the log-in page.
    RedirectToLogIn,
    /// Call the identity provider's logout.
    Logout,
    /// Nothing to do.
    Nothing,
}

} // verus!
