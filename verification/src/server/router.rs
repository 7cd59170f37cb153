//! The first router: routes with a fixed method and path and a fixed answer.

use vstd::prelude::*;
use vstd::string::StringExecFns;
use crate::server::http::http_routes::{HttpReply, Reply, STATUS_NOT_FOUND, STATUS_OK};
use crate::text::equal;

verus! {

/// Method and path of a route.
#[derive(Debug)]
pub struct RouteData {
    pub method: String,
    pub path: String,
}

/// Answers that a process is running.
#[derive(Debug)]
pub struct RunRoute {
    pub data: RouteData,
}

/// Answers a request that no other route is for.
#[derive(Debug)]
pub struct Route404 {
    pub data: RouteData,
}

/// Answers that a kill was taken note of.
#[derive(Debug)]
pub struct KillRoute {
    pub data: RouteData,
}

/// A route of the first router.
#[derive(Debug)]
pub enum Handlable {
    Run(RunRoute),
    NotFound(Route404),
    Kill(KillRoute),
}

impl Handlable {
    /// Method and path of the route.
    pub open spec fn route_data(&self) -> RouteData {
        match self {
            Handlable::Run(route) => route.data,
            Handlable::NotFound(route) => route.data,
            Handlable::Kill(route) => route.data,
        }
    }

    pub fn method(&self) -> (method: &str)
        ensures
            method@ == self.route_data().method@,
    {
        match self {
            Handlable::Run(route) => route.data.method.as_str(),
            Handlable::NotFound(route) => route.data.method.as_str(),
            Handlable::Kill(route) => route.data.method.as_str(),
        }
    }

    pub fn path(&self) -> (path: &str)
        ensures
            path@ == self.route_data().path@,
    {
        match self {
            Handlable::Run(route) => route.data.path.as_str(),
            Handlable::NotFound(route) => route.data.path.as_str(),
            Handlable::Kill(route) => route.data.path.as_str(),
        }
    }

    /// The answer of the route.
    pub open spec fn answer(&self) -> Reply {
        match self {
            Handlable::Run(_) => Reply { status: STATUS_OK, body: "A process is running."@ },
            Handlable::NotFound(_) => Reply { status: STATUS_NOT_FOUND, body: "404"@ },
            Handlable::Kill(_) => Reply { status: STATUS_OK, body: "OK"@ },
        }
    }

    /// The answer of the route; the request's body plays no part in it.
    pub fn handle_data(&self, body: String) -> (reply: HttpReply)
        ensures
            reply@ == self.answer(),
    {
        match self {
            Handlable::Run(_) => HttpReply {
                status: STATUS_OK,
                body: String::from_str("A process is running."),
            },
            Handlable::NotFound(_) => HttpReply {
                status: STATUS_NOT_FOUND,
                body: String::from_str("404"),
            },
            Handlable::Kill(_) => HttpReply { status: STATUS_OK, body: String::from_str("OK") },
        }
    }
}

/// Whether a request with this method and path is for the route: both are
/// those of the route, character by character.
pub open spec fn serves(route: Handlable, method: Seq<char>, path: Seq<char>) -> bool {
    route.route_data().method@ == method && route.route_data().path@ == path
}

/// Position of the first of `routes` that serves the request; the number of
/// routes when none does.
pub open spec fn first_serving(routes: Seq<Handlable>, method: Seq<char>, path: Seq<char>) -> nat
    decreases routes.len(),
{
    if routes.len() == 0 || serves(routes[0], method, path) {
        0
    } else {
        1 + first_serving(routes.drop_first(), method, path)
    }
}

proof fn lemma_first_serving(routes: Seq<Handlable>, method: Seq<char>, path: Seq<char>, k: int)
    requires
        0 <= k <= routes.len(),
        forall|j: int| 0 <= j < k ==> !serves(#[trigger] routes[j], method, path),
        k == routes.len() || serves(routes[k], method, path),
    ensures
        first_serving(routes, method, path) == k,
    decreases k,
{
    if k > 0 {
        assert(!serves(routes[0], method, path));
        assert forall|j: int| 0 <= j < k - 1 implies !serves(
            #[trigger] routes.drop_first()[j],
            method,
            path,
        ) by {
            assert(routes.drop_first()[j] == routes[j + 1]);
        }
        lemma_first_serving(routes.drop_first(), method, path, k - 1);
    }
}

/// Routes that are tried in order, and the one that answers when none serves.
#[derive(Debug)]
pub struct Router {
    routes: Vec<Handlable>,
    not_found_route: Handlable,
}

impl Router {
    /// The routes, in the order they are tried.
    pub closed spec fn routes(&self) -> Seq<Handlable> {
        self.routes@
    }

    /// The route that answers when no other serves.
    pub closed spec fn not_found_route(&self) -> Handlable {
        self.not_found_route
    }

    /// A router over `routes` whose fallback answers 404.
    pub fn new(routes: Vec<Handlable>) -> (router: Self)
        ensures
            router.routes() == routes@,
            router.not_found_route() is NotFound,
            router.not_found_route().route_data().method@ == "GET"@,
            router.not_found_route().route_data().path@ == "/404"@,
    {
        let route_404 = Route404 {
            data: RouteData { method: String::from_str("GET"), path: String::from_str("/404") },
        };
        Router { routes, not_found_route: Handlable::NotFound(route_404) }
    }

    /// The route that answers a request: the first that serves it, else the
    /// fallback.
    pub open spec fn chosen(&self, method: Seq<char>, path: Seq<char>) -> Handlable {
        if first_serving(self.routes(), method, path) < self.routes().len() {
            self.routes()[first_serving(self.routes(), method, path) as int]
        } else {
            self.not_found_route()
        }
    }

    /// Finds the route that answers a request.
    pub fn route(&self, method: &str, path: &str) -> (found: &Handlable)
        ensures
            *found == self.chosen(method@, path@),
    {
        let mut i: usize = 0;
        while i < self.routes.len()
            invariant
                i <= self.routes@.len(),
                forall|j: int| 0 <= j < i ==> !serves(#[trigger] self.routes@[j], method@, path@),
            decreases self.routes@.len() - i,
        {
            if equal(self.routes[i].method(), method) && equal(self.routes[i].path(), path) {
                proof {
                    lemma_first_serving(self.routes@, method@, path@, i as int);
                }
                return &self.routes[i];
            }
            i += 1;
        }
        proof {
            lemma_first_serving(self.routes@, method@, path@, self.routes@.len() as int);
        }
        &self.not_found_route
    }

    /// The answer to a request.
    pub fn handle_request(&self, method: &str, path: &str, body: String) -> (reply: HttpReply)
        ensures
            reply@ == self.chosen(method@, path@).answer(),
    {
        self.route(method, path).handle_data(body)
    }
}

} // verus!
