use tauri_plugin_decoration::protocol::{
    handle, Body, Method, ProtocolRequest, ProtocolResponse, SCHEME, STYLESHEET_PATH,
};

const STYLESHEET_LEN: u64 = 1234;

fn request(method: Method, scheme: &str, authority: &str, path_and_query: &str) -> ProtocolRequest {
    ProtocolRequest {
        method,
        scheme: Some(scheme.to_string()),
        authority: Some(authority.to_string()),
        path_and_query: Some(path_and_query.to_string()),
    }
}

fn header<'a>(response: &'a ProtocolResponse, name: &str) -> Option<&'a str> {
    response
        .headers
        .iter()
        .find(|(header, _)| *header == name)
        .map(|(_, value)| value.as_str())
}

#[test]
fn get_serves_only_the_fixed_stylesheet_with_security_headers() {
    let response = handle(
        &request(Method::Get, SCHEME, "localhost", STYLESHEET_PATH),
        STYLESHEET_LEN,
    );

    assert_eq!(response.status, 200);
    assert_eq!(response.body, Body::Stylesheet);
    assert_eq!(
        header(&response, "content-type"),
        Some("text/css; charset=utf-8")
    );
    assert_eq!(header(&response, "x-content-type-options"), Some("nosniff"));
    assert_eq!(header(&response, "cache-control"), Some("no-store"));
    assert_eq!(
        header(&response, "cross-origin-resource-policy"),
        Some("cross-origin")
    );
}

#[test]
fn head_has_get_headers_and_no_body() {
    let response = handle(
        &request(Method::Head, SCHEME, "localhost", STYLESHEET_PATH),
        STYLESHEET_LEN,
    );

    assert_eq!(response.status, 200);
    assert_eq!(response.body, Body::Empty);
    assert_eq!(
        header(&response, "content-length"),
        Some(STYLESHEET_LEN.to_string().as_str())
    );
    let get = handle(
        &request(Method::Get, SCHEME, "localhost", STYLESHEET_PATH),
        STYLESHEET_LEN,
    );
    assert_eq!(get.headers, response.headers);
}

#[test]
fn unsupported_methods_are_rejected_without_reflecting_the_request() {
    let response = handle(
        &request(Method::Other, SCHEME, "localhost", STYLESHEET_PATH),
        STYLESHEET_LEN,
    );

    assert_eq!(response.status, 405);
    assert_eq!(header(&response, "allow"), Some("GET, HEAD"));
    assert_eq!(response.body, Body::MethodNotAllowed);
    assert_eq!(response.body.text(), Some("Method Not Allowed"));
}

#[test]
fn alternate_authority_is_not_routed() {
    for authority in ["evil.example", "user@localhost", "localhost:443"] {
        let response = handle(
            &request(Method::Get, SCHEME, authority, STYLESHEET_PATH),
            STYLESHEET_LEN,
        );
        assert_eq!(response.status, 404, "{authority}");
    }
}

#[test]
fn alternate_scheme_path_or_query_is_not_routed() {
    for (scheme, path) in [
        ("other-scheme", STYLESHEET_PATH),
        (SCHEME, "/"),
        (SCHEME, "/controls.css/extra"),
        (SCHEME, "/controls.css?v=1"),
    ] {
        let response = handle(
            &request(Method::Get, scheme, "localhost", path),
            STYLESHEET_LEN,
        );
        assert_eq!(response.status, 404, "{scheme}{path}");
        assert_eq!(response.body.text(), Some("Not Found"));
    }
    let missing = ProtocolRequest {
        method: Method::Get,
        scheme: Some(SCHEME.to_string()),
        authority: None,
        path_and_query: Some(STYLESHEET_PATH.to_string()),
    };
    assert_eq!(handle(&missing, STYLESHEET_LEN).status, 404);
    assert_eq!(
        header(&handle(&missing, STYLESHEET_LEN), "content-type"),
        Some("text/plain; charset=utf-8")
    );
}
