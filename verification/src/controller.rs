//! The session controller: a pure state machine over [`SessionState`].
//!
//! `next_state` and `action_of` are the specification of the machine;
//! [`SessionController::handle`] is the executable step, proved to follow
//! them exactly.

use crate::session::{Action, AuthConfig, Event, FetchError, InitPayload, SessionState, UserProfile};
use vstd::prelude::*;

verus! {

/// The profile the state exposes: present exactly in `Authenticated`.
pub open spec fn profile_of(s: SessionState) -> Option<UserProfile> {
    match s {
        SessionState::Authenticated(p) => Some(p),
        _ => None,
    }
}

/// The state after an event is processed.
///
/// A successful configuration fetch loads the configuration.  A finished
/// identity-client initialization leads to `Authenticated` when it carried a
/// well-formed profile and to `Anonymous` when it carried none or one that
/// could not be decoded.  A successful logout clears the profile.  Every
/// failure, and every mere request, leaves the state as it was.
pub open spec fn next_state(s: SessionState, e: Event) -> SessionState {
    match e {
        Event::ConfigFetched(Ok(config)) => SessionState::ConfigLoaded(config),
        Event::ConfigFetched(Err(_)) => s,
        Event::AuthInitialized(Ok(InitPayload::Profile(p))) => SessionState::Authenticated(p),
        Event::AuthInitialized(Ok(InitPayload::Absent)) => SessionState::Anonymous,
        Event::AuthInitialized(Ok(InitPayload::Malformed(_))) => SessionState::Anonymous,
        Event::AuthInitialized(Err(_)) => s,
        Event::LogOutDone(Ok(_)) => if s is Authenticated {
            SessionState::Anonymous
        } else {
            s
        },
        _ => s,
    }
}

/// The outside work an event calls for.
///
/// Only a successful configuration fetch triggers identity-client
/// initialization, with exactly the fetched domain and client identifier;
/// the three user requests trigger their respective provider calls; every
/// other event asks for nothing.
pub open spec fn action_of(e: Event) -> Action {
    match e {
        Event::ConfigFetched(Ok(config)) => Action::InitAuth {
            domain: config.domain,
            client_id: config.client_id,
        },
        Event::SignUpRequested => Action::RedirectToSignUp,
        Event::LogInRequested => Action::RedirectToLogIn,
        Event::LogOutRequested => Action::Logout,
        _ => Action::Nothing,
    }
}

/// Tracks the current session state and steps it for each reported event.
pub struct SessionController {
    state: SessionState,
}

impl View for SessionController {
    type V = SessionState;

    closed spec fn view(&self) -> SessionState {
        self.state
    }
}

impl SessionController {
    /// A fresh controller, before any configuration has arrived.
    pub fn new() -> (c: SessionController)
        ensures
            c@ == SessionState::Uninitialized,
    {
        SessionController { state: SessionState::Uninitialized }
    }

    /// Process one event: move to the successor state and hand back the
    /// outside work it calls for.
    pub fn handle(&mut self, event: Event) -> (action: Action)
        ensures
            final(self)@ == next_state(old(self)@, event),
            action == action_of(event),
    {
        match event {
            Event::ConfigFetched(Ok(config)) => {
                let domain = config.domain.clone();
                let client_id = config.client_id.clone();
                self.state = SessionState::ConfigLoaded(config);
                Action::InitAuth { domain, client_id }
            }
            Event::ConfigFetched(Err(_)) => Action::Nothing,
            Event::AuthInitialized(Ok(InitPayload::Profile(p))) => {
                self.state = SessionState::Authenticated(p);
                Action::Nothing
            }
            Event::AuthInitialized(Ok(InitPayload::Absent)) => {
                self.state = SessionState::Anonymous;
                Action::Nothing
            }
            Event::AuthInitialized(Ok(InitPayload::Malformed(_))) => {
                self.state = SessionState::Anonymous;
                Action::Nothing
            }
            Event::AuthInitialized(Err(_)) => Action::Nothing,
            Event::SignUpRequested => Action::RedirectToSignUp,
            Event::LogInRequested => Action::RedirectToLogIn,
            Event::LogOutRequested => Action::Logout,
            Event::SignUpRedirectDone(_) => Action::Nothing,
            Event::LogInRedirectDone(_) => Action::Nothing,
            Event::LogOutDone(Ok(_)) => {
                match &self.state {
                    SessionState::Authenticated(_) => {
                        self.state = SessionState::Anonymous;
                    }
                    _ => {}
                }
                Action::Nothing
            }
            Event::LogOutDone(Err(_)) => Action::Nothing,
        }
    }

    /// The current session state.
    pub fn state(&self) -> (s: &SessionState)
        ensures
            *s == self@,
    {
        &self.state
    }

    /// The authenticated user's profile, if there is one.
    pub fn profile(&self) -> (p: Option<&UserProfile>)
        ensures
            match profile_of(self@) {
                Some(u) => p matches Some(q) && *q == u,
                None => p is None,
            },
    {
        match &self.state {
            SessionState::Authenticated(u) => Some(u),
            _ => None,
        }
    }

    /// The loaded auth configuration, while the controller is waiting for
    /// the identity client to be initialized with it.
    pub fn config(&self) -> (c: Option<&AuthConfig>)
        ensures
            match self@ {
                SessionState::ConfigLoaded(cfg) => c matches Some(q) && *q == cfg,
                _ => c is None,
            },
    {
        match &self.state {
            SessionState::ConfigLoaded(cfg) => Some(cfg),
            _ => None,
        }
    }
}

/// A profile is exposed exactly in the `Authenticated` state: in every other
/// state there is none.
pub proof fn lemma_profile_only_when_authenticated(s: SessionState)
    ensures
        profile_of(s) is Some <==> s is Authenticated,
{
}

/// A successful configuration fetch moves any state to `ConfigLoaded` with
/// exactly the fetched configuration, and requests identity-client
/// initialization with that configuration's domain and client identifier.
pub proof fn lemma_config_success_loads_then_inits(s: SessionState, config: AuthConfig)
    ensures
        next_state(s, Event::ConfigFetched(Ok(config))) == SessionState::ConfigLoaded(config),
        action_of(Event::ConfigFetched(Ok(config))) == (Action::InitAuth {
            domain: config.domain,
            client_id: config.client_id,
        }),
{
}

/// Identity-client initialization is requested only by a successful
/// configuration fetch, whose transition lands in `ConfigLoaded`: so the
/// configuration is loaded before the initialization can run.
pub proof fn lemma_init_only_after_config_loaded(s: SessionState, e: Event)
    ensures
        action_of(e) is InitAuth ==> next_state(s, e) is ConfigLoaded,
{
}

/// A failed configuration fetch leaves the state exactly as it was — in
/// particular `Uninitialized` stays `Uninitialized` — and requests nothing,
/// so no identity-client initialization occurs.
pub proof fn lemma_config_failure_changes_nothing(s: SessionState, error: FetchError)
    ensures
        next_state(s, Event::ConfigFetched(Err(error))) == s,
        action_of(Event::ConfigFetched(Err(error))) == Action::Nothing,
{
}

/// When initialization reports no existing session, the controller becomes
/// `Anonymous`, whatever came before, and exposes no profile.
pub proof fn lemma_absent_session_is_anonymous(s: SessionState)
    ensures
        next_state(s, Event::AuthInitialized(Ok(InitPayload::Absent))) == SessionState::Anonymous,
        profile_of(next_state(s, Event::AuthInitialized(Ok(InitPayload::Absent)))) is None,
{
}

/// When initialization hands back a well-formed profile, the controller
/// becomes `Authenticated` with that very profile: every field of the
/// exposed profile equals the payload's.
pub proof fn lemma_profile_round_trips(s: SessionState, p: UserProfile)
    ensures
        next_state(s, Event::AuthInitialized(Ok(InitPayload::Profile(p))))
            == SessionState::Authenticated(p),
        profile_of(next_state(s, Event::AuthInitialized(Ok(InitPayload::Profile(p))))) == Some(p),
{
}

/// A successful logout leaves no profile behind, whatever the prior state
/// held.
pub proof fn lemma_logout_clears_profile(s: SessionState)
    ensures
        profile_of(next_state(s, Event::LogOutDone(Ok(())))) is None,
{
}

/// Sign-up, log-in, and log-out requests only delegate to the identity
/// provider: the state is unchanged, and so it is when a redirect finishes
/// without error (success navigates the browser away).
pub proof fn lemma_requests_leave_state_intact(s: SessionState, e: Event)
    requires
        (e is SignUpRequested) || (e is LogInRequested) || (e is LogOutRequested)
            || (e matches Event::SignUpRedirectDone(r) && r is Ok)
            || (e matches Event::LogInRedirectDone(r) && r is Ok),
    ensures
        next_state(s, e) == s,
{
}

/// Every failure event leaves the prior state intact: a fetch error, an
/// initialization error, a redirect error, and a logout error are logged by
/// the environment and change nothing.
pub proof fn lemma_failures_leave_state_intact(s: SessionState, e: Event)
    requires
        (e matches Event::ConfigFetched(r) && r is Err)
            || (e matches Event::AuthInitialized(r) && r is Err)
            || (e matches Event::SignUpRedirectDone(r) && r is Err)
            || (e matches Event::LogInRedirectDone(r) && r is Err)
            || (e matches Event::LogOutDone(r) && r is Err),
    ensures
        next_state(s, e) == s,
        action_of(e) == Action::Nothing,
{
}

} // verus!
