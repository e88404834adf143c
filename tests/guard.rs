use kong_guard::context::{Kong, Passport, Request};
use kong_guard::guard::{
    authorize, evaluate, require_session, state_of_resolution, verdict, GuardState,
    PrivateKontroller,
};
use kong_guard::identity::{IdentityStore, LookupError, Role};
use kong_guard::method::Method;
use kong_guard::response::ErrorResponse;

const ADMIN: u64 = 1;
const MEMBER: u64 = 2;

fn private_kontroller() -> PrivateKontroller {
    PrivateKontroller::new("/private".to_string(), Method::Get)
}

fn get_private(kpassport: Option<Passport>) -> Kong {
    Kong::new(
        Request { method: Method::Get, path: "/private".to_string() },
        kpassport,
    )
}

fn store() -> IdentityStore {
    let mut s = IdentityStore::new();
    s.set_role(ADMIN, Role::Privileged);
    s.set_role(MEMBER, Role::NonPrivileged);
    s
}

#[test]
fn no_session_is_unauthorized() {
    let k = private_kontroller();
    let r = k.kontrol(&get_private(None), &store());
    assert_eq!(r.status_code(), 401);
    assert!(!r.is_success());
    assert_eq!(r.body(), "Unauthorized");
    let r = k.kontrol(&get_private(None), &IdentityStore::new());
    assert_eq!(r.status_code(), 401);
}

#[test]
fn non_privileged_session_is_unauthorized() {
    let r = private_kontroller().kontrol(&get_private(Some(Passport { account: MEMBER })), &store());
    assert_eq!(r.status_code(), 401);
    assert!(!r.is_success());
}

#[test]
fn privileged_session_is_served() {
    let r = private_kontroller().kontrol(&get_private(Some(Passport { account: ADMIN })), &store());
    assert_eq!(r.status_code(), 200);
    assert!(r.is_success());
    assert_eq!(r.body(), "{\"message\":\"Hello World\"}");
}

#[test]
fn unknown_identity_is_internal() {
    let k = get_private(Some(Passport { account: 99 }));
    assert_eq!(evaluate(&k, &store()), GuardState::SessionUnresolved);
    assert_eq!(authorize(&k, &store()), Err(ErrorResponse::Internal));
    let r = private_kontroller().kontrol(&k, &store());
    assert_eq!(r.status_code(), 500);
}

#[test]
fn repeated_privileged_request_succeeds_twice() {
    let s = store();
    let k = private_kontroller();
    let req = get_private(Some(Passport { account: ADMIN }));
    let first = k.kontrol(&req, &s);
    let second = k.kontrol(&req, &s);
    assert_eq!(first.status_code(), 200);
    assert_eq!(second.status_code(), 200);
    assert_eq!(first.body(), second.body());
}

#[test]
fn revoked_privilege_takes_effect_at_once() {
    let mut s = store();
    let k = private_kontroller();
    let req = get_private(Some(Passport { account: ADMIN }));
    assert_eq!(k.kontrol(&req, &s).status_code(), 200);
    s.set_role(ADMIN, Role::NonPrivileged);
    assert_eq!(k.kontrol(&req, &s).status_code(), 401);
    s.set_role(ADMIN, Role::Privileged);
    assert_eq!(k.kontrol(&req, &s).status_code(), 200);
}

#[test]
fn private_route_scenario() {
    let k = private_kontroller();
    let mut s = IdentityStore::new();
    // no cookie
    assert_eq!(k.kontrol(&get_private(None), &s).status_code(), 401);
    // the logged-in account, flagged admin
    let admin = Some(Passport { account: 7 });
    s.set_role(7, Role::Privileged);
    let r = k.kontrol(&get_private(admin), &s);
    assert_eq!(r.status_code(), 200);
    assert_eq!(r.body(), "{\"message\":\"Hello World\"}");
    // the same account, not flagged admin
    s.set_role(7, Role::NonPrivileged);
    assert_eq!(k.kontrol(&get_private(admin), &s).status_code(), 401);
}

#[test]
fn guard_checkpoints() {
    assert_eq!(require_session(&get_private(None)), Err(GuardState::NoSession));
    let p = Passport { account: 3 };
    assert_eq!(require_session(&get_private(Some(p))), Ok(p));
    assert_eq!(state_of_resolution(Ok(Role::Privileged)), GuardState::ResolvedPrivileged);
    assert_eq!(state_of_resolution(Ok(Role::NonPrivileged)), GuardState::ResolvedNonPrivileged);
    assert_eq!(state_of_resolution(Err(LookupError::StoreUnavailable)), GuardState::SessionUnresolved);
    assert_eq!(state_of_resolution(Err(LookupError::UnknownIdentity)), GuardState::SessionUnresolved);
    assert_eq!(verdict(GuardState::NoSession), Err(ErrorResponse::Unauthorized));
    assert_eq!(verdict(GuardState::SessionUnresolved), Err(ErrorResponse::Internal));
    assert_eq!(verdict(GuardState::ResolvedNonPrivileged), Err(ErrorResponse::Unauthorized));
    assert_eq!(verdict(GuardState::ResolvedPrivileged), Ok(()));
}

#[test]
fn kontroller_binding() {
    let k = private_kontroller();
    assert_eq!(k.address(), "/private");
    assert_eq!(k.method(), Method::Get);
}

#[test]
fn store_resolves_roles() {
    let mut s = IdentityStore::new();
    assert_eq!(s.resolve_role(&Passport { account: 5 }), Err(LookupError::UnknownIdentity));
    s.set_role(5, Role::NonPrivileged);
    assert_eq!(s.resolve_role(&Passport { account: 5 }), Ok(Role::NonPrivileged));
    s.set_role(5, Role::Privileged);
    assert_eq!(s.resolve_role(&Passport { account: 5 }), Ok(Role::Privileged));
}
