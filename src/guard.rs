//! The authorization guard of protected endpoints, and the private endpoint
//! that it guards.
//!
//! The guard passes through three checkpoints: is a session present, does it
//! resolve against the identity store, and is the resolved role privileged.
//! It keeps nothing between requests: every request is judged afresh on the
//! store as it is then.
use vstd::prelude::*;
use crate::context::{Kong, Passport};
use crate::identity::{spec_resolve, IdentityStore, LookupError, Role};
use crate::method::Method;
use crate::response::{ErrorResponse, Response, ResponseView};

verus! {

/// Where one evaluation of the guard ends. Every state is terminal.
#[derive(Clone, Copy, Debug, PartialEq, Eq, Structural)]
pub enum GuardState {
    /// The request carries no session.
    NoSession,
    /// The session could not be resolved to a role.
    SessionUnresolved,
    /// The session belongs to an account without privilege.
    ResolvedNonPrivileged,
    /// The session belongs to a privileged account.
    ResolvedPrivileged,
}

/// The state that a completed lookup leads to.
pub open spec fn spec_state_of_resolution(res: Result<Role, LookupError>) -> GuardState {
    match res {
        Ok(Role::Privileged) => GuardState::ResolvedPrivileged,
        Ok(Role::NonPrivileged) => GuardState::ResolvedNonPrivileged,
        Err(_) => GuardState::SessionUnresolved,
    }
}

/// The state the guard reaches for a session, against the given roles.
pub open spec fn spec_guard(kpassport: Option<Passport>, roles: Map<u64, Role>) -> GuardState {
    match kpassport {
        None => GuardState::NoSession,
        Some(p) => spec_state_of_resolution(spec_resolve(roles, p)),
    }
}

/// The guard's decision in each state: pass, or the failure to answer with.
/// A failed lookup is a fault of the system; a missing session and a missing
/// privilege look the same to the caller.
pub open spec fn spec_verdict(s: GuardState) -> Result<(), ErrorResponse> {
    match s {
        GuardState::NoSession => Err(ErrorResponse::Unauthorized),
        GuardState::SessionUnresolved => Err(ErrorResponse::Internal),
        GuardState::ResolvedNonPrivileged => Err(ErrorResponse::Unauthorized),
        GuardState::ResolvedPrivileged => Ok(()),
    }
}

/// The guard's decision on a request, against the given roles.
pub open spec fn spec_authorize(kpassport: Option<Passport>, roles: Map<u64, Role>) -> Result<(), ErrorResponse> {
    spec_verdict(spec_guard(kpassport, roles))
}

/// First checkpoint: the session of the request, or `NoSession`.
pub fn require_session(kong: &Kong) -> (r: Result<Passport, GuardState>)
    ensures
        match kong.kpassport {
            None => r == Err::<Passport, GuardState>(GuardState::NoSession),
            Some(p) => r == Ok::<Passport, GuardState>(p),
        },
{
    match kong.kpassport {
        None => Err(GuardState::NoSession),
        Some(p) => Ok(p),
    }
}

/// Second and third checkpoints: the state that the result of a lookup
/// leads to.
pub fn state_of_resolution(res: Result<Role, LookupError>) -> (r: GuardState)
    ensures
        r == spec_state_of_resolution(res),
{
    match res {
        Ok(Role::Privileged) => GuardState::ResolvedPrivileged,
        Ok(Role::NonPrivileged) => GuardState::ResolvedNonPrivileged,
        Err(_) => GuardState::SessionUnresolved,
    }
}

/// The decision that a state of the guard stands for.
pub fn verdict(s: GuardState) -> (r: Result<(), ErrorResponse>)
    ensures
        r == spec_verdict(s),
{
    match s {
        GuardState::NoSession => Err(ErrorResponse::Unauthorized),
        GuardState::SessionUnresolved => Err(ErrorResponse::Internal),
        GuardState::ResolvedNonPrivileged => Err(ErrorResponse::Unauthorized),
        GuardState::ResolvedPrivileged => Ok(()),
    }
}

/// Runs the guard on a request against the store; the store is only read.
pub fn evaluate(kong: &Kong, store: &IdentityStore) -> (r: GuardState)
    ensures
        r == spec_guard(kong.kpassport, store@),
{
    match require_session(kong) {
        Err(s) => s,
        Ok(p) => state_of_resolution(store.resolve_role(&p)),
    }
}

/// The guard's decision on a request against the store.
pub fn authorize(kong: &Kong, store: &IdentityStore) -> (r: Result<(), ErrorResponse>)
    ensures
        r == spec_authorize(kong.kpassport, store@),
{
    verdict(evaluate(kong, store))
}

/// The payload of the private endpoint.
pub open spec fn spec_private_body() -> Seq<char> {
    "{\"message\":\"Hello World\"}"@
}

/// What the private endpoint answers, given the guard's decision.
pub open spec fn spec_private_response(v: Result<(), ErrorResponse>) -> ResponseView {
    match v {
        Ok(()) => ResponseView::Success { status: 200, body: spec_private_body() },
        Err(e) => ResponseView::Failure(e),
    }
}

/// A protected endpoint that greets administrators.
pub struct PrivateKontroller {
    address: String,
    method: Method,
}

impl PrivateKontroller {
    pub fn new(address: String, method: Method) -> (r: PrivateKontroller)
        ensures
            r.spec_address() == address@,
            r.spec_method() == method,
    {
        PrivateKontroller { address, method }
    }

    pub closed spec fn spec_address(&self) -> Seq<char> {
        self.address@
    }

    pub closed spec fn spec_method(&self) -> Method {
        self.method
    }

    /// The path this endpoint is bound to.
    pub fn address(&self) -> (r: String)
        ensures
            r@ == self.spec_address(),
    {
        self.address.clone()
    }

    /// The method this endpoint is bound to.
    pub fn method(&self) -> (r: Method)
        ensures
            r == self.spec_method(),
    {
        self.method
    }

    /// The answer to a request on which the guard decided `v`.
    pub fn respond(&self, v: Result<(), ErrorResponse>) -> (r: Response)
        ensures
            r@ == spec_private_response(v),
    {
        match v {
            Ok(()) => Response::success(200, "{\"message\":\"Hello World\"}".to_owned()),
            Err(e) => Response::failure(e),
        }
    }

    /// Handles a request: runs the guard against the store, then answers.
    pub fn kontrol(&self, kong: &Kong, store: &IdentityStore) -> (r: Response)
        ensures
            r@ == spec_private_response(spec_authorize(kong.kpassport, store@)),
    {
        self.respond(authorize(kong, store))
    }
}

/// Whether the session names a privileged account of the store.
pub open spec fn spec_privileged(roles: Map<u64, Role>, p: Passport) -> bool {
    roles.contains_key(p.account) && roles[p.account] == Role::Privileged
}

/// A request without a session is refused as unauthorized, whatever the
/// store holds.
pub proof fn lemma_no_session_unauthorized(roles: Map<u64, Role>)
    ensures
        spec_authorize(None, roles) == Err::<(), ErrorResponse>(ErrorResponse::Unauthorized),
        spec_private_response(spec_authorize(None, roles)) == ResponseView::Failure(ErrorResponse::Unauthorized),
{
}

/// A session of an account without privilege is refused as unauthorized,
/// never served and never answered otherwise.
pub proof fn lemma_non_privileged_unauthorized(roles: Map<u64, Role>, p: Passport)
    requires
        roles.contains_key(p.account),
        roles[p.account] == Role::NonPrivileged,
    ensures
        spec_authorize(Some(p), roles) == Err::<(), ErrorResponse>(ErrorResponse::Unauthorized),
        spec_private_response(spec_authorize(Some(p), roles)) == ResponseView::Failure(ErrorResponse::Unauthorized),
{
}

/// A session of a privileged account is served: status 200 with the
/// endpoint's payload.
pub proof fn lemma_privileged_served(roles: Map<u64, Role>, p: Passport)
    requires
        spec_privileged(roles, p),
    ensures
        spec_authorize(Some(p), roles) == Ok::<(), ErrorResponse>(()),
        spec_private_response(spec_authorize(Some(p), roles)) == (ResponseView::Success {
            status: 200,
            body: spec_private_body(),
        }),
{
}

/// Asking twice with the same privileged session, on a store that nothing
/// changed in between, gives two successes: judging a request changes
/// nothing that the next judgement reads.
pub proof fn lemma_repeat_privileged(roles: Map<u64, Role>, p: Passport)
    requires
        spec_privileged(roles, p),
    ensures
        ({
            let first = spec_private_response(spec_authorize(Some(p), roles));
            let second = spec_private_response(spec_authorize(Some(p), roles));
            first is Success && second is Success && first == second
        }),
{
}

/// Once the account of a session loses its privilege, the next request
/// with that session is refused: no earlier decision is kept.
pub proof fn lemma_revocation_takes_effect(roles: Map<u64, Role>, p: Passport)
    requires
        spec_privileged(roles, p),
    ensures
        spec_private_response(spec_authorize(Some(p), roles)) is Success,
        spec_private_response(spec_authorize(Some(p), roles.insert(p.account, Role::NonPrivileged)))
            == ResponseView::Failure(ErrorResponse::Unauthorized),
{
}

} // verus!
