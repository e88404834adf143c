//! The per-request context handed to a handler.
use vstd::prelude::*;
use crate::method::Method;

verus! {

/// A session token established by an earlier login: it names one account.
#[derive(Clone, Copy, Debug, PartialEq, Eq, Structural)]
pub struct Passport {
    pub account: u64,
}

/// An incoming request, as far as dispatch reads it.
#[derive(Debug)]
pub struct Request {
    pub method: Method,
    pub path: String,
}

/// The request context ("kong"): the raw request and its session, if any.
#[derive(Debug)]
pub struct Kong {
    pub request: Request,
    pub kpassport: Option<Passport>,
}

impl Kong {
    /// A fresh context for one request.
    pub fn new(request: Request, kpassport: Option<Passport>) -> (r: Kong)
        ensures
            r.request == request,
            r.kpassport == kpassport,
    {
        Kong { request, kpassport }
    }
}

} // verus!
