use vstd::prelude::*;

verus! {

/// An HTTP method named in the cross-origin policy.
#[derive(Clone, Copy, PartialEq, Eq, Structural)]
pub enum Method {
    Get,
    Post,
    Delete,
    Options,
}

/// The cross-origin policy applied to every reply, preflight replies included.
pub struct CorsPolicy {
    /// Any requesting origin is allowed.
    pub all_origins: bool,
    pub allowed_methods: Vec<Method>,
    /// Any request header is allowed.
    pub all_headers: bool,
    pub allow_credentials: bool,
    /// How long, in seconds, a browser may cache a preflight reply.
    pub max_age: Option<usize>,
    /// The path under which the catch-all preflight routes are mounted.
    pub fairing_route_base: String,
}

/// The policy lets any origin call with credentials, by any of the service's
/// methods and with any headers.
pub open spec fn permissive(p: CorsPolicy) -> bool {
    &&& p.all_origins
    &&& p.all_headers
    &&& p.allow_credentials
    &&& p.allowed_methods@.contains(Method::Get)
    &&& p.allowed_methods@.contains(Method::Post)
    &&& p.allowed_methods@.contains(Method::Delete)
    &&& p.allowed_methods@.contains(Method::Options)
}

/// The service's policy: every origin, GET, POST, DELETE and OPTIONS, every
/// header, credentials allowed, preflight cached for 42 seconds.
pub fn core_options() -> (r: CorsPolicy)
    ensures
        r.all_origins,
        r.allowed_methods@ == seq![Method::Get, Method::Post, Method::Delete, Method::Options],
        r.all_headers,
        r.allow_credentials,
        r.max_age == Some(42usize),
        r.fairing_route_base@ == "/"@,
        permissive(r),
{
    let methods = vec![Method::Get, Method::Post, Method::Delete, Method::Options];
    let r = CorsPolicy {
        all_origins: true,
        allowed_methods: methods,
        all_headers: true,
        allow_credentials: true,
        max_age: Some(42),
        fairing_route_base: String::from_str("/"),
    };
    assert(r.allowed_methods@[0] == Method::Get);
    assert(r.allowed_methods@[1] == Method::Post);
    assert(r.allowed_methods@[2] == Method::Delete);
    assert(r.allowed_methods@[3] == Method::Options);
    r
}

} // verus!
