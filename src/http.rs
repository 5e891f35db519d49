use vstd::prelude::*;

verus! {

/// The TCP port the service listens on unless configured otherwise.
pub const DEFAULT_PORT: u16 = 8000;

/// The HTTP methods a cross-origin policy can name.
#[derive(Clone, Copy, Debug, PartialEq, Eq, Structural)]
pub enum HttpMethod {
    Get,
    Post,
    Options,
    Put,
    Delete,
    Patch,
    Head,
}

/// One response header, by name and value.
pub struct Header {
    pub name: String,
    pub value: String,
}

/// The answer to a pre-flight request: a status code, headers in order, a body.
pub struct PreflightResponse {
    pub status: u16,
    pub headers: Vec<Header>,
    pub body: String,
}

/// The cross-origin permissions attached to every response of the service.
pub struct CorsPolicy {
    pub allow_any_origin: bool,
    pub allowed_methods: Vec<HttpMethod>,
    pub allow_any_header: bool,
    pub allow_credentials: bool,
}

/// The headers of a pre-flight response, each as a (name, value) pair.
pub open spec fn header_pairs(hs: Seq<Header>) -> Seq<(Seq<char>, Seq<char>)> {
    hs.map_values(|h: Header| (h.name@, h.value@))
}

/// The headers with which every pre-flight request is answered.
pub open spec fn preflight_headers() -> Seq<(Seq<char>, Seq<char>)> {
    seq![
        ("Access-Control-Allow-Origin"@, "*"@),
        ("Access-Control-Allow-Methods"@, "GET, POST, PUT, DELETE, OPTIONS"@),
        ("Access-Control-Allow-Headers"@, "Content-Type"@),
    ]
}

/// The methods the service allows from other origins.
pub open spec fn cors_methods() -> Seq<HttpMethod> {
    seq![
        HttpMethod::Get,
        HttpMethod::Post,
        HttpMethod::Options,
        HttpMethod::Put,
        HttpMethod::Delete,
        HttpMethod::Patch,
        HttpMethod::Head,
    ]
}

fn header(name: &str, value: &str) -> (r: Header)
    ensures
        r.name@ == name@,
        r.value@ == value@,
{
    Header { name: String::from_str(name), value: String::from_str(value) }
}

/// Answers a pre-flight request on any path: status 200, an empty body, and
/// headers granting access from any origin. The store is not touched.
pub fn catch_options(_path: &str) -> (r: PreflightResponse)
    ensures
        r.status == 200,
        r.body@ == Seq::<char>::empty(),
        header_pairs(r.headers@) == preflight_headers(),
{
    let mut headers: Vec<Header> = Vec::new();
    headers.push(header("Access-Control-Allow-Origin", "*"));
    headers.push(header("Access-Control-Allow-Methods", "GET, POST, PUT, DELETE, OPTIONS"));
    headers.push(header("Access-Control-Allow-Headers", "Content-Type"));
    let r = PreflightResponse { status: 200, headers, body: String::new() };
    assert(header_pairs(r.headers@) =~= preflight_headers());
    r
}

/// The permissive cross-origin policy of the service: any origin, the methods
/// of [`cors_methods`], any request header, credentials allowed.
pub fn cors_policy() -> (r: CorsPolicy)
    ensures
        r.allow_any_origin,
        r.allowed_methods@ == cors_methods(),
        r.allow_any_header,
        r.allow_credentials,
{
    let allowed_methods: Vec<HttpMethod> = vec![
        HttpMethod::Get,
        HttpMethod::Post,
        HttpMethod::Options,
        HttpMethod::Put,
        HttpMethod::Delete,
        HttpMethod::Patch,
        HttpMethod::Head,
    ];
    assert(allowed_methods@ =~= cors_methods());
    CorsPolicy { allow_any_origin: true, allowed_methods, allow_any_header: true, allow_credentials: true }
}

} // verus!
