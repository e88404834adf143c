//! Registration of routes and dispatch of requests to them.
use vstd::prelude::*;
use crate::context::{Kong, Passport, Request};
use crate::method::Method;
use crate::response::ErrorResponse;

verus! {

/// A (method, path) pair that one handler is bound to.
#[derive(Debug)]
pub struct Route {
    pub method: Method,
    pub address: String,
}

impl View for Route {
    type V = (Method, Seq<char>);

    open spec fn view(&self) -> (Method, Seq<char>) {
        (self.method, self.address@)
    }
}

impl Route {
    pub fn new(method: Method, address: String) -> (r: Route)
        ensures
            r@ == (method, address@),
    {
        Route { method, address }
    }

    /// Whether this route is bound to exactly this method and path.
    pub fn matches(&self, method: Method, path: &String) -> (r: bool)
        ensures
            r == spec_matches(self@, method, path@),
    {
        self.method == method && self.address == *path
    }
}

/// Exact match on both the method and the path.
pub open spec fn spec_matches(route: (Method, Seq<char>), method: Method, path: Seq<char>) -> bool {
    route.0 == method && route.1 == path
}

/// No route occurs twice.
pub open spec fn distinct_routes(s: Seq<(Method, Seq<char>)>) -> bool {
    forall|i: int, j: int| 0 <= i < j < s.len() ==> s[i] != s[j]
}

/// The routes of a list, in order.
pub open spec fn routes_view(v: Seq<Route>) -> Seq<(Method, Seq<char>)> {
    v.map_values(|r: Route| r@)
}

/// An immutable table of routes, each bound to the handler at its index.
pub struct Router {
    routes: Vec<Route>,
}

impl View for Router {
    type V = Seq<(Method, Seq<char>)>;

    closed spec fn view(&self) -> Seq<(Method, Seq<char>)> {
        routes_view(self.routes@)
    }
}

impl Router {
    #[verifier::type_invariant]
    spec fn inv(&self) -> bool {
        distinct_routes(self@)
    }

    /// Builds the table from routes given in order. A route that repeats an
    /// earlier one is refused: the result is then the index of the first
    /// such route.
    pub fn kroute(routes: Vec<Route>) -> (r: Result<Router, usize>)
        ensures
            r is Ok <==> distinct_routes(routes_view(routes@)),
            match r {
                Ok(router) => router@ == routes_view(routes@),
                Err(j) => j < routes@.len() && distinct_routes(routes_view(routes@).take(j as int))
                    && !distinct_routes(routes_view(routes@).take(j + 1)),
            },
    {
        let ghost views = routes_view(routes@);
        let n = routes.len();
        let mut j: usize = 0;
        while j < n
            invariant
                n == routes@.len(),
                views == routes_view(routes@),
                j <= n,
                distinct_routes(views.take(j as int)),
            decreases n - j,
        {
            let mut i: usize = 0;
            while i < j
                invariant
                    n == routes@.len(),
                    views == routes_view(routes@),
                    i <= j < n,
                    distinct_routes(views.take(j as int)),
                    forall|k: int| 0 <= k < i ==> views[k] != views[j as int],
                decreases j - i,
            {
                if routes[i].matches(routes[j].method, &routes[j].address) {
                    proof {
                        let t = views.take(j + 1);
                        assert(t[i as int] == t[j as int]);
                    }
                    return Err(j);
                }
                i = i + 1;
            }
            proof {
                let t = views.take(j + 1);
                assert forall|a: int, b: int| 0 <= a < b < t.len() implies t[a] != t[b] by {
                    if b < j {
                        assert(t[a] == views.take(j as int)[a]);
                        assert(t[b] == views.take(j as int)[b]);
                    }
                }
            }
            j = j + 1;
        }
        assert(views.take(n as int) =~= views);
        Ok(Router { routes })
    }

    /// The number of routes.
    pub fn len(&self) -> (r: usize)
        ensures
            r == self@.len(),
    {
        self.routes.len()
    }

    /// The index of the route bound to this method and path, if any. Since
    /// no route occurs twice, at most one matches.
    pub fn find(&self, method: Method, path: &String) -> (r: Option<usize>)
        ensures
            r is Some <==> exists|i: int| 0 <= i < self@.len() && spec_matches(self@[i], method, path@),
            match r {
                Some(i) => i < self@.len() && spec_matches(self@[i as int], method, path@)
                    && forall|k: int| 0 <= k < self@.len() && k != i ==> !spec_matches(self@[k], method, path@),
                None => forall|k: int| 0 <= k < self@.len() ==> !spec_matches(self@[k], method, path@),
            },
    {
        proof {
            use_type_invariant(self);
        }
        let n = self.routes.len();
        let mut i: usize = 0;
        while i < n
            invariant
                n == self@.len(),
                self@ == routes_view(self.routes@),
                distinct_routes(self@),
                i <= n,
                forall|k: int| 0 <= k < i ==> !spec_matches(self@[k], method, path@),
            decreases n - i,
        {
            if self.routes[i].matches(method, path) {
                proof {
                    assert(self@[i as int] == self.routes@[i as int]@);
                    assert forall|k: int| 0 <= k < self@.len() && k != i implies !spec_matches(
                        self@[k],
                        method,
                        path@,
                    ) by {
                        if k > i {
                            assert(self@[i as int] != self@[k]);
                        }
                    }
                }
                return Some(i);
            }
            i = i + 1;
        }
        None
    }

    /// Matches a request to its route and builds the context for the
    /// handler at the returned index, carrying the request's session. A
    /// request that matches no route gets `NotFound`.
    pub fn dispatch(&self, request: Request, kpassport: Option<Passport>) -> (r: Result<(usize, Kong), ErrorResponse>)
        ensures
            r is Ok <==> exists|i: int| 0 <= i < self@.len() && spec_matches(self@[i], request.method, request.path@),
            match r {
                Ok((i, kong)) => i < self@.len() && spec_matches(self@[i as int], request.method, request.path@)
                    && kong.request == request && kong.kpassport == kpassport,
                Err(e) => e == ErrorResponse::NotFound,
            },
    {
        match self.find(request.method, &request.path) {
            Some(i) => Ok((i, Kong::new(request, kpassport))),
            None => Err(ErrorResponse::NotFound),
        }
    }
}

} // verus!
