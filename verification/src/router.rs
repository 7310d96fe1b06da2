//! The route table and its dispatch.
//!
//! A route pairs a method and a path with the constant response its handler
//! produces. Dispatch scans the table in registration order and answers with
//! the first matching route's response, or `404 Not Found` when none matches.

use vstd::prelude::*;

use crate::http::{Method, Request, Response};
use crate::http::{greeting, hello_path, spec_greeting, spec_hello_path};

verus! {

/// One entry of the route table: requests whose method and path equal
/// `method` and `path` are answered with `status` and `body`.
pub struct Route {
    pub method: Method,
    pub path: String,
    pub status: u16,
    pub body: String,
}

impl Route {
    /// Whether a request with method `m` and path `p` matches this route.
    pub open spec fn spec_is_match(self, m: Method, p: Seq<char>) -> bool {
        self.method == m && self.path@ == p
    }

    /// Decides whether `req` matches this route.
    pub fn is_match(&self, req: &Request) -> (r: bool)
        ensures
            r == self.spec_is_match(req.method, req.path@),
    {
        self.method == req.method && self.path == req.path
    }
}

/// The first route of `rs` that a request with method `m` and path `p`
/// matches, if any.
pub open spec fn spec_lookup(rs: Seq<Route>, m: Method, p: Seq<char>) -> Option<Route>
    decreases rs.len(),
{
    if rs.len() == 0 {
        None
    } else if rs[0].spec_is_match(m, p) {
        Some(rs[0])
    } else {
        spec_lookup(rs.drop_first(), m, p)
    }
}

/// The status and body that a table `rs` answers a request with: the first
/// matching route's response, or `404` with an empty body.
pub open spec fn spec_response(rs: Seq<Route>, m: Method, p: Seq<char>) -> (u16, Seq<char>) {
    match spec_lookup(rs, m, p) {
        Some(r) => (r.status, r.body@),
        None => (404u16, Seq::<char>::empty()),
    }
}

/// A static table of routes, fixed once built and read-only while serving.
pub struct RouteTable {
    routes: Vec<Route>,
}

impl View for RouteTable {
    type V = Seq<Route>;

    closed spec fn view(&self) -> Seq<Route> {
        self.routes@
    }
}

proof fn lemma_lookup_hit(rs: Seq<Route>, m: Method, p: Seq<char>, i: int)
    requires
        0 <= i < rs.len(),
        rs[i].spec_is_match(m, p),
        forall|k: int| 0 <= k < i ==> !rs[k].spec_is_match(m, p),
    ensures
        spec_lookup(rs, m, p) == Some(rs[i]),
    decreases i,
{
    if i > 0 {
        assert forall|k: int| 0 <= k < i - 1 implies !rs.drop_first()[k].spec_is_match(m, p) by {
            assert(rs.drop_first()[k] == rs[k + 1]);
        }
        assert(rs.drop_first()[i - 1] == rs[i]);
        lemma_lookup_hit(rs.drop_first(), m, p, i - 1);
    }
}

proof fn lemma_lookup_miss(rs: Seq<Route>, m: Method, p: Seq<char>)
    requires
        forall|k: int| 0 <= k < rs.len() ==> !rs[k].spec_is_match(m, p),
    ensures
        spec_lookup(rs, m, p) is None,
    decreases rs.len(),
{
    if rs.len() > 0 {
        assert forall|k: int| 0 <= k < rs.drop_first().len() implies !rs.drop_first()[k].spec_is_match(
            m,
            p,
        ) by {
            assert(rs.drop_first()[k] == rs[k + 1]);
        }
        lemma_lookup_miss(rs.drop_first(), m, p);
    }
}

impl RouteTable {
    /// An empty table: every request is answered `404`.
    pub fn new() -> (t: RouteTable)
        ensures
            t@ == Seq::<Route>::empty(),
    {
        RouteTable { routes: Vec::new() }
    }

    /// Registers one more route, after all the ones already present.
    pub fn route(self, r: Route) -> (t: RouteTable)
        ensures
            t@ == self@.push(r),
    {
        let mut routes = self.routes;
        routes.push(r);
        RouteTable { routes }
    }

    /// How many routes the table holds.
    pub fn len(&self) -> (n: usize)
        ensures
            n == self@.len(),
    {
        self.routes.len()
    }

    /// Answers `req` with the first matching route's response, or `404` with
    /// an empty body when no route matches.
    pub fn dispatch(&self, req: &Request) -> (resp: Response)
        ensures
            resp.status == spec_response(self@, req.method, req.path@).0,
            resp.body@ == spec_response(self@, req.method, req.path@).1,
    {
        let mut i: usize = 0;
        while i < self.routes.len()
            invariant
                i <= self.routes.len(),
                forall|k: int| 0 <= k < i ==> !self.routes@[k].spec_is_match(req.method, req.path@),
            decreases self.routes.len() - i,
        {
            if self.routes[i].is_match(req) {
                proof {
                    lemma_lookup_hit(self.routes@, req.method, req.path@, i as int);
                }
                let r = &self.routes[i];
                return Response { status: r.status, body: r.body.clone() };
            }
            i += 1;
        }
        proof {
            lemma_lookup_miss(self.routes@, req.method, req.path@);
        }
        Response::not_found()
    }
}

/// The service's whole route table: exactly one entry, mapping `GET /hello`
/// to a `200` response whose body is the fixed greeting.
pub fn hello_router() -> (t: RouteTable)
    ensures
        t@.len() == 1,
        t@[0].method == Method::Get,
        t@[0].path@ == spec_hello_path(),
        t@[0].status == 200,
        t@[0].body@ == spec_greeting(),
{
    RouteTable::new().route(
        Route { method: Method::Get, path: hello_path(), status: 200, body: greeting() },
    )
}

/// The status the service answers a request of method `m` and path `p` with.
pub open spec fn spec_status(m: Method, p: Seq<char>) -> u16 {
    if m == Method::Get && p == spec_hello_path() {
        200u16
    } else {
        404u16
    }
}

/// The body the service answers a request of method `m` and path `p` with.
pub open spec fn spec_body(m: Method, p: Seq<char>) -> Seq<char> {
    if m == Method::Get && p == spec_hello_path() {
        spec_greeting()
    } else {
        Seq::<char>::empty()
    }
}

proof fn lemma_hello_table_response(rs: Seq<Route>, m: Method, p: Seq<char>)
    requires
        rs.len() == 1,
        rs[0].method == Method::Get,
        rs[0].path@ == spec_hello_path(),
        rs[0].status == 200,
        rs[0].body@ == spec_greeting(),
    ensures
        spec_response(rs, m, p).0 == spec_status(m, p),
        spec_response(rs, m, p).1 == spec_body(m, p),
{
    if rs[0].spec_is_match(m, p) {
        lemma_lookup_hit(rs, m, p, 0);
    } else {
        assert forall|k: int| 0 <= k < rs.len() implies !rs[k].spec_is_match(m, p) by {
            assert(k == 0);
        }
        lemma_lookup_miss(rs, m, p);
    }
}

/// Serves one request against the service's fixed route table: `200` with the
/// greeting for `GET /hello`, `404` with an empty body for everything else.
pub fn handle(req: &Request) -> (resp: Response)
    ensures
        resp.status == spec_status(req.method, req.path@),
        resp.body@ == spec_body(req.method, req.path@),
        req.method == Method::Get && req.path@ == spec_hello_path() ==> resp.status == 200
            && resp.body@ == spec_greeting(),
        !(req.method == Method::Get && req.path@ == spec_hello_path()) ==> resp.status == 404
            && resp.body@ == Seq::<char>::empty(),
{
    let table = hello_router();
    proof {
        lemma_hello_table_response(table@, req.method, req.path@);
    }
    table.dispatch(req)
}

/// The service's logic produces no status besides `200` and `404`; any other
/// code a client sees comes from the transport, not from this library.
pub proof fn lemma_only_two_statuses(m: Method, p: Seq<char>)
    ensures
        spec_status(m, p) == 200 || spec_status(m, p) == 404,
{
}

/// A response depends on the route table and the request's own method and
/// path alone, so requests served alongside one another cannot interfere:
/// two requests that agree on method and path are answered identically,
/// whatever else the table serves around them.
pub proof fn lemma_no_cross_request_interference(
    rs: Seq<Route>,
    m1: Method,
    p1: Seq<char>,
    m2: Method,
    p2: Seq<char>,
)
    requires
        m1 == m2,
        p1 == p2,
    ensures
        spec_response(rs, m1, p1) == spec_response(rs, m2, p2),
{
}

} // verus!
