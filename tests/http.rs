use todo_list::http::{catch_options, cors_policy, HttpMethod, DEFAULT_PORT};

#[test]
fn options_preflight_response() {
    let r = catch_options("items");
    assert_eq!(r.status, 200);
    assert!(r.body.is_empty());
    let origin = r.headers.iter().find(|h| h.name == "Access-Control-Allow-Origin");
    assert_eq!(origin.map(|h| h.value.as_str()), Some("*"));
}

#[test]
fn options_headers_in_order() {
    let r = catch_options("any/nested/path");
    let pairs: Vec<(&str, &str)> =
        r.headers.iter().map(|h| (h.name.as_str(), h.value.as_str())).collect();
    assert_eq!(
        pairs,
        vec![
            ("Access-Control-Allow-Origin", "*"),
            ("Access-Control-Allow-Methods", "GET, POST, PUT, DELETE, OPTIONS"),
            ("Access-Control-Allow-Headers", "Content-Type"),
        ]
    );
}

#[test]
fn cors_policy_is_permissive() {
    let p = cors_policy();
    assert!(p.allow_any_origin);
    assert!(p.allow_any_header);
    assert!(p.allow_credentials);
    assert_eq!(
        p.allowed_methods,
        vec![
            HttpMethod::Get,
            HttpMethod::Post,
            HttpMethod::Options,
            HttpMethod::Put,
            HttpMethod::Delete,
            HttpMethod::Patch,
            HttpMethod::Head,
        ]
    );
}

#[test]
fn default_port() {
    assert_eq!(DEFAULT_PORT, 8000);
}
