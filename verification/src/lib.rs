//! Client-side authentication session controller.
//!
//! The library models the session life cycle of a single-page front end that
//! fetches a remote auth configuration, initializes a third-party identity
//! client, and reflects login/logout transitions into UI state.  The
//! controller itself is a pure state machine: the surrounding program performs
//! the network and identity-provider calls, feeds their outcomes back in as
//! [`session::Event`]s, and carries out the [`session::Action`]s the
//! controller requests.

pub mod controller;
pub mod session;
