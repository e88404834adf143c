//! HTTP methods that a route can be bound to.
use vstd::prelude::*;

verus! {

/// The HTTP method of a request or of a route.
#[derive(Clone, Copy, Debug, PartialEq, Eq, Structural)]
pub enum Method {
    Get,
    Post,
    Put,
    Patch,
    Delete,
}

} // verus!
