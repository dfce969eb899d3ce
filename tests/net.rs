use std::collections::HashMap;

use ferrum::ops::net::{
    check_url_permissions, extract_hostname, fetch, fetch_json, fetch_text, tcp_connect, FetchOptions,
    FetchResponse, HttpHeaders, HttpMethod, NetError, WebSocketConnection,
};
use ferrum::permissions::{PermissionError, Permissions};

fn response(status: u16, body: &[u8]) -> FetchResponse {
    FetchResponse {
        status,
        status_text: String::new(),
        headers: HttpHeaders::new(),
        body: body.to_vec(),
        url: "https://example.com".to_string(),
    }
}

#[test]
fn test_http_method_from_str() {
    assert_eq!(HttpMethod::from_str("GET"), Some(HttpMethod::GET));
    assert_eq!(HttpMethod::from_str("get"), Some(HttpMethod::GET));
    assert_eq!(HttpMethod::from_str("POST"), Some(HttpMethod::POST));
    assert_eq!(HttpMethod::from_str("INVALID"), None);
}

#[test]
fn test_http_method_as_str() {
    assert_eq!(HttpMethod::GET.as_str(), "GET");
    assert_eq!(HttpMethod::POST.as_str(), "POST");
    assert_eq!(HttpMethod::DELETE.as_str(), "DELETE");
}

#[test]
fn test_fetch_response_ok() {
    let response = FetchResponse {
        status: 200,
        status_text: "OK".to_string(),
        headers: HttpHeaders::new(),
        body: b"Hello, World!".to_vec(),
        url: "https://example.com".to_string(),
    };

    assert!(response.ok());
    assert_eq!(response.text().unwrap(), "Hello, World!");
}

#[test]
fn test_fetch_response_not_ok() {
    let response = FetchResponse {
        status: 404,
        status_text: "Not Found".to_string(),
        headers: HttpHeaders::new(),
        body: b"Not Found".to_vec(),
        url: "https://example.com".to_string(),
    };

    assert!(!response.ok());
}

#[test]
fn test_fetch_options_default() {
    let opts = FetchOptions::default();
    assert!(opts.method.is_none());
    assert!(opts.headers.is_none());
    assert!(opts.body.is_none());
    assert!(opts.timeout.is_none());
    assert!(opts.redirect.is_none());
    assert!(opts.max_redirects.is_none());
}

#[test]
fn test_extract_hostname() {
    assert_eq!(extract_hostname("https://example.com/path").unwrap(), "example.com");
    assert_eq!(extract_hostname("http://api.example.com:8080/v1").unwrap(), "api.example.com");
    assert!(extract_hostname("ftp://example.com").is_err());
    assert!(extract_hostname("not-a-url").is_err());
}

#[test]
fn test_check_url_permissions_allowed() {
    let perms = Permissions::allow_all();
    assert!(check_url_permissions("https://example.com", &perms).is_ok());
}

#[test]
fn test_check_url_permissions_denied() {
    let perms = Permissions::default();
    assert!(matches!(
        check_url_permissions("https://example.com", &perms),
        Err(NetError::Permission(_))
    ));
}

#[test]
fn http_methods_round_trip() {
    for m in [
        HttpMethod::GET,
        HttpMethod::POST,
        HttpMethod::PUT,
        HttpMethod::DELETE,
        HttpMethod::PATCH,
        HttpMethod::HEAD,
        HttpMethod::OPTIONS,
    ] {
        assert_eq!(HttpMethod::from_str(m.as_str()), Some(m));
        assert_eq!(HttpMethod::from_str(&m.as_str().to_lowercase()), Some(m));
    }
    assert_eq!(HttpMethod::from_canonical("get"), None);
    assert_eq!(HttpMethod::from_str("pAtCh"), Some(HttpMethod::PATCH));
}

#[test]
fn response_status_bounds_and_text() {
    assert!(response(200, b"").ok());
    assert!(response(299, b"").ok());
    assert!(!response(199, b"").ok());
    assert!(!response(300, b"").ok());
    assert_eq!(response(200, "h\u{e9}".as_bytes()).text().unwrap(), "h\u{e9}");
    assert!(matches!(
        response(200, &[0xff, 0xfe]).text(),
        Err(NetError::InvalidResponse(_))
    ));
}

#[test]
fn gated_operations() {
    let none = Permissions::default();
    let all = Permissions::allow_all();
    assert!(matches!(fetch("https://example.com", None, &none), Err(NetError::Permission(_))));
    assert!(matches!(fetch("https://example.com", None, &all), Err(NetError::RequestFailed(_))));
    assert!(matches!(fetch("ftp://example.com", None, &all), Err(NetError::InvalidUrl(_))));
    assert!(matches!(
        fetch_text("https://example.com", Some(FetchOptions::default()), &all),
        Err(NetError::RequestFailed(_))
    ));
    assert!(matches!(tcp_connect("example.com:80", &none), Err(NetError::Permission(_))));
    assert!(matches!(tcp_connect("example.com:80", &all), Err(NetError::ConnectionError(_))));
    let mut perms = Permissions::default();
    perms.net.grant_addresses(vec!["example.com".to_string()]);
    assert!(matches!(tcp_connect("example.com:80", &perms), Err(NetError::ConnectionError(_))));
    assert!(matches!(tcp_connect("other.com:80", &perms), Err(NetError::Permission(_))));
    assert!(matches!(
        WebSocketConnection::connect("wss://example.com", &all),
        Err(NetError::InvalidUrl(_))
    ));
    assert!(matches!(
        WebSocketConnection::connect("https://example.com/ws", &all),
        Err(NetError::ConnectionError(_))
    ));
    let headers: HashMap<String, String> = HashMap::new();
    assert!(headers.is_empty());
}

#[test]
fn test_fetch_response_json() {
    let response = FetchResponse {
        status: 200,
        status_text: "OK".to_string(),
        headers: HttpHeaders::new(),
        body: br#"{"hello": "world"}"#.to_vec(),
        url: "https://example.com".to_string(),
    };

    let json = response.json().unwrap();
    assert_eq!(json["hello"], "world");
}

#[test]
fn test_fetch_response_invalid_json() {
    let response = FetchResponse {
        status: 200,
        status_text: "OK".to_string(),
        headers: HttpHeaders::new(),
        body: b"not json".to_vec(),
        url: "https://example.com".to_string(),
    };

    assert!(response.json().is_err());
}

#[test]
fn denied_hosts_get_the_permission_error() {
    let none = Permissions::default();
    match tcp_connect("example.com:80", &none) {
        Err(NetError::Permission(PermissionError::Denied(m))) => {
            assert_eq!(m, "Requires network access to 'example.com'")
        }
        _ => panic!("expected a permission error"),
    }
    match fetch_json("https://example.com/a.json", None, &none) {
        Err(NetError::Permission(PermissionError::Denied(m))) => {
            assert_eq!(m, "Requires network access to 'example.com'")
        }
        _ => panic!("expected a permission error"),
    }
    assert!(matches!(
        fetch_json("https://example.com/a.json", None, &Permissions::allow_all()),
        Err(NetError::RequestFailed(_))
    ));
    assert!(matches!(
        WebSocketConnection::connect("https://example.com/ws", &none),
        Err(NetError::Permission(_))
    ));
}
