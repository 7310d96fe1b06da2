//! Plain request and response values for the service.

use vstd::prelude::*;

verus! {

/// An HTTP request method. Only `Get` is ever routed; every other variant is
/// answered with `404 Not Found`. `Other` stands for any extension method.
#[derive(Clone, Copy, PartialEq, Eq, Structural, Debug)]
pub enum Method {
    Get,
    Head,
    Post,
    Put,
    Delete,
    Options,
    Patch,
    Other,
}

/// What the service reads of an inbound request: its method and its path.
pub struct Request {
    pub method: Method,
    pub path: String,
}

/// What the service writes back: a status code and a textual body.
pub struct Response {
    pub status: u16,
    pub body: String,
}

/// The fixed greeting body served for `GET /hello`.
pub open spec fn spec_greeting() -> Seq<char> {
    "Hello, World!"@
}

/// The one routed path.
pub open spec fn spec_hello_path() -> Seq<char> {
    "/hello"@
}

/// The fixed address the listener binds to.
pub open spec fn spec_bind_address() -> Seq<char> {
    "0.0.0.0:3000"@
}

/// The greeting body as an owned string.
pub fn greeting() -> (s: String)
    ensures
        s@ == spec_greeting(),
{
    "Hello, World!".to_owned()
}

/// The routed path as an owned string.
pub fn hello_path() -> (s: String)
    ensures
        s@ == spec_hello_path(),
{
    "/hello".to_owned()
}

/// The listener's fixed bind address as an owned string.
pub fn bind_address() -> (s: String)
    ensures
        s@ == spec_bind_address(),
{
    "0.0.0.0:3000".to_owned()
}

impl Response {
    /// The default reply for an unmatched request: `404` with an empty body.
    pub fn not_found() -> (r: Response)
        ensures
            r.status == 404,
            r.body@ == Seq::<char>::empty(),
    {
        Response { status: 404, body: String::new() }
    }
}

} // verus!
