//! Request dispatch and an authorization guard for protected endpoints.
//!
//! A [`router::Router`] binds (method, path) routes to handlers ("kontrollers").
//! A request that matches a route is handed on with its optional session
//! ("passport"); a protected handler consults the identity store through the
//! guard in [`guard`] before it serves anything.
pub mod method;
pub mod response;
pub mod context;
pub mod identity;
pub mod guard;
pub mod router;

