//! Network operations: HTTP types and the permission gates in front of
//! fetch, TCP and WebSocket access. The transports themselves are not
//! provided, so the gated operations fail after the permission check.

use std::collections::HashMap;

use vstd::prelude::*;
use vstd::string::*;
use vstd::utf8::*;

use crate::permissions::{NetPermission, PermissionError, Permissions};
use crate::json::{is_json_bytes, parse_json_bytes};
use crate::text::{concat2, equals, owned, slice_chars, starts_with};
use crate::urls::{parse_url_host, url_host};

verus! {

/// Errors that can occur during network operations.
#[derive(Debug, Clone)]
pub enum NetError {
    /// Permission denied for network operation.
    Permission(PermissionError),
    /// Invalid URL format.
    InvalidUrl(String),
    /// HTTP request failed.
    RequestFailed(String),
    /// Request timeout.
    Timeout(String),
    /// Invalid HTTP response.
    InvalidResponse(String),
    /// Connection error.
    ConnectionError(String),
    /// DNS resolution failed.
    DnsError(String),
}

/// Result type for network operations.
pub type NetResult<T> = Result<T, NetError>;

/// HTTP methods.
#[derive(Debug, Clone, Copy, PartialEq, Eq, Structural, Hash)]
pub enum HttpMethod {
    /// GET request method.
    GET,
    /// POST request method.
    POST,
    /// PUT request method.
    PUT,
    /// DELETE request method.
    DELETE,
    /// PATCH request method.
    PATCH,
    /// HEAD request method.
    HEAD,
    /// OPTIONS request method.
    OPTIONS,
}

/// The canonical (upper-case) name of a method.
pub open spec fn method_name(m: HttpMethod) -> Seq<char> {
    match m {
        HttpMethod::GET => "GET"@,
        HttpMethod::POST => "POST"@,
        HttpMethod::PUT => "PUT"@,
        HttpMethod::DELETE => "DELETE"@,
        HttpMethod::PATCH => "PATCH"@,
        HttpMethod::HEAD => "HEAD"@,
        HttpMethod::OPTIONS => "OPTIONS"@,
    }
}

/// The method whose canonical name is `s`, if any.
pub open spec fn method_named(s: Seq<char>) -> Option<HttpMethod> {
    if s == "GET"@ {
        Some(HttpMethod::GET)
    } else if s == "POST"@ {
        Some(HttpMethod::POST)
    } else if s == "PUT"@ {
        Some(HttpMethod::PUT)
    } else if s == "DELETE"@ {
        Some(HttpMethod::DELETE)
    } else if s == "PATCH"@ {
        Some(HttpMethod::PATCH)
    } else if s == "HEAD"@ {
        Some(HttpMethod::HEAD)
    } else if s == "OPTIONS"@ {
        Some(HttpMethod::OPTIONS)
    } else {
        None
    }
}

/// What `str::to_uppercase` returns for a string.
pub uninterp spec fn upper_of(s: Seq<char>) -> Seq<char>;

/// Relies on `str::to_uppercase`: the result depends on the characters alone.
#[verifier::external_body]
fn uppercase(s: &str) -> (r: String)
    ensures
        r@ == upper_of(s@),
{
    s.to_uppercase()
}

impl HttpMethod {
    /// The method with exactly this canonical (upper-case) name.
    pub fn from_canonical(method: &str) -> (r: Option<Self>)
        ensures
            r == method_named(method@),
    {
        if equals(method, "GET") {
            Some(HttpMethod::GET)
        } else if equals(method, "POST") {
            Some(HttpMethod::POST)
        } else if equals(method, "PUT") {
            Some(HttpMethod::PUT)
        } else if equals(method, "DELETE") {
            Some(HttpMethod::DELETE)
        } else if equals(method, "PATCH") {
            Some(HttpMethod::PATCH)
        } else if equals(method, "HEAD") {
            Some(HttpMethod::HEAD)
        } else if equals(method, "OPTIONS") {
            Some(HttpMethod::OPTIONS)
        } else {
            None
        }
    }

    /// Parse an HTTP method name in any case.
    pub fn from_str(method: &str) -> (r: Option<Self>)
        ensures
            r == method_named(upper_of(method@)),
    {
        let upper = uppercase(method);
        Self::from_canonical(upper.as_str())
    }

    /// The method's canonical name.
    pub fn as_str(&self) -> (r: &'static str)
        ensures
            r@ == method_name(*self),
    {
        match self {
            HttpMethod::GET => "GET",
            HttpMethod::POST => "POST",
            HttpMethod::PUT => "PUT",
            HttpMethod::DELETE => "DELETE",
            HttpMethod::PATCH => "PATCH",
            HttpMethod::HEAD => "HEAD",
            HttpMethod::OPTIONS => "OPTIONS",
        }
    }
}

/// HTTP request headers.
pub type HttpHeaders = HashMap<String, String>;

/// HTTP request configuration.
#[derive(Debug, Clone)]
pub struct FetchOptions {
    /// Request method.
    pub method: Option<HttpMethod>,
    /// Request headers.
    pub headers: Option<HttpHeaders>,
    /// Request body.
    pub body: Option<Vec<u8>>,
    /// Request timeout in milliseconds.
    pub timeout: Option<u64>,
    /// Whether to follow redirects.
    pub redirect: Option<bool>,
    /// Maximum redirect depth.
    pub max_redirects: Option<usize>,
}

impl Default for FetchOptions {
    fn default() -> (r: Self)
        ensures
            r.method is None,
            r.headers is None,
            r.body is None,
            r.timeout is None,
            r.redirect is None,
            r.max_redirects is None,
    {
        FetchOptions {
            method: None,
            headers: None,
            body: None,
            timeout: None,
            redirect: None,
            max_redirects: None,
        }
    }
}

/// Relies on `String::from_utf8`: the text of the bytes when they are valid
/// UTF-8.
#[verifier::external_body]
fn utf8_text(bytes: &Vec<u8>) -> (r: Option<String>)
    ensures
        r is Some <==> valid_utf8(bytes@),
        r matches Some(s) ==> s@ == decode_utf8(bytes@),
{
    String::from_utf8(bytes.clone()).ok()
}

/// HTTP response.
#[derive(Debug, Clone)]
pub struct FetchResponse {
    /// Status code.
    pub status: u16,
    /// Status text.
    pub status_text: String,
    /// Response headers.
    pub headers: HttpHeaders,
    /// Response body.
    pub body: Vec<u8>,
    /// URL (after redirects).
    pub url: String,
}

impl FetchResponse {
    /// The response body as text.
    pub fn text(&self) -> (r: NetResult<String>)
        ensures
            r is Ok <==> valid_utf8(self.body@),
            r matches Ok(s) ==> s@ == decode_utf8(self.body@),
            r matches Err(e) ==> e matches NetError::InvalidResponse(m) && m@
                == "Response is not valid UTF-8"@,
    {
        match utf8_text(&self.body) {
            Some(s) => Ok(s),
            None => Err(NetError::InvalidResponse(owned("Response is not valid UTF-8"))),
        }
    }

    /// The response body as JSON.
    pub fn json(&self) -> (r: NetResult<serde_json::Value>)
        ensures
            r is Ok <==> is_json_bytes(self.body@),
            r matches Err(e) ==> e is InvalidResponse,
    {
        match parse_json_bytes(self.body.as_slice()) {
            Ok(v) => Ok(v),
            Err(e) => {
                let detail = e.to_string();
                Err(NetError::InvalidResponse(concat2("Invalid JSON: ", detail.as_str())))
            },
        }
    }

    /// Whether the response was successful (a 2xx status code).
    pub fn ok(&self) -> (r: bool)
        ensures
            r == (200 <= self.status < 300),
    {
        200 <= self.status && self.status < 300
    }
}

/// The host a URL names, as `extract_hostname` reports it.
pub open spec fn hostname_outcome(url: Seq<char>) -> Result<Seq<char>, Seq<char>> {
    if "http://"@.is_prefix_of(url) || "https://"@.is_prefix_of(url) {
        match url_host(url) {
            None => Err(url),
            Some(None) => Err("No hostname in URL"@),
            Some(Some(h)) => Ok(h),
        }
    } else {
        Err("URL must start with http:// or https://"@)
    }
}

/// Extract the hostname of an `http://` or `https://` URL.
pub fn extract_hostname(url: &str) -> (r: NetResult<String>)
    ensures
        match hostname_outcome(url@) {
            Ok(h) => r matches Ok(s) && s@ == h,
            Err(m) => r matches Err(NetError::InvalidUrl(s)) && s@ == m,
        },
{
    if starts_with(url, "http://") || starts_with(url, "https://") {
        match parse_url_host(url) {
            None => Err(NetError::InvalidUrl(owned(url))),
            Some(None) => Err(NetError::InvalidUrl(owned("No hostname in URL"))),
            Some(Some(h)) => Ok(h),
        }
    } else {
        Err(NetError::InvalidUrl(owned("URL must start with http:// or https://")))
    }
}

/// Whether `e` is what the permission gate for `url` fails with.
pub open spec fn url_gate_error(net: NetPermission, url: Seq<char>, r: NetResult<()>) -> bool {
    match hostname_outcome(url) {
        Err(m) => r matches Err(NetError::InvalidUrl(s)) && s@ == m,
        Ok(h) => {
            &&& (r is Ok <==> net.state().allows(Some(h)))
            &&& r matches Err(e) ==> e matches NetError::Permission(p) && p is Denied && p->Denied_0@
                == NetPermission::denial(h)
        },
    }
}

/// Check network permission for the host of a URL.
pub fn check_url_permissions(url: &str, permissions: &Permissions) -> (r: NetResult<()>)
    ensures
        url_gate_error(permissions.net, url@, r),
{
    let hostname = match extract_hostname(url) {
        Ok(h) => h,
        Err(e) => return Err(e),
    };
    match permissions.check_net(hostname.as_str()) {
        Ok(()) => Ok(()),
        Err(e) => Err(NetError::Permission(e)),
    }
}

/// Fetch a URL over HTTP. The host must be allowed; the transport is not
/// provided, so a permitted request fails with `RequestFailed`.
pub fn fetch(url: &str, options: Option<FetchOptions>, permissions: &Permissions) -> (r: NetResult<
    FetchResponse,
>)
    ensures
        r is Err,
        r matches Err(NetError::RequestFailed(_)) <==> check_url_permissions_ok(permissions, url@),
        !check_url_permissions_ok(permissions, url@) ==> (r matches Err(e) && url_gate_error(
            permissions.net,
            url@,
            Err(e),
        )),
{
    match check_url_permissions(url, permissions) {
        Err(e) => Err(e),
        Ok(()) => Err(
            NetError::RequestFailed(
                owned("HTTP fetch not yet fully implemented. Please add reqwest or ureq to Cargo.toml"),
            ),
        ),
    }
}

/// The URL gate lets `url` through.
pub open spec fn check_url_permissions_ok(permissions: &Permissions, url: Seq<char>) -> bool {
    match hostname_outcome(url) {
        Ok(h) => permissions.net.state().allows(Some(h)),
        Err(_) => false,
    }
}

/// Fetch a URL and return the response body as text.
pub fn fetch_text(url: &str, options: Option<FetchOptions>, permissions: &Permissions) -> (r:
    NetResult<String>)
    ensures
        r is Err,
        r matches Err(NetError::RequestFailed(_)) <==> check_url_permissions_ok(permissions, url@),
        !check_url_permissions_ok(permissions, url@) ==> (r matches Err(e) && url_gate_error(
            permissions.net,
            url@,
            Err(e),
        )),
{
    match fetch(url, options, permissions) {
        Ok(response) => response.text(),
        Err(e) => Err(e),
    }
}

/// Fetch a URL and return the response body as JSON.
pub fn fetch_json(url: &str, options: Option<FetchOptions>, permissions: &Permissions) -> (r:
    NetResult<serde_json::Value>)
    ensures
        r is Err,
        r matches Err(NetError::RequestFailed(_)) <==> check_url_permissions_ok(permissions, url@),
        !check_url_permissions_ok(permissions, url@) ==> (r matches Err(e) && url_gate_error(
            permissions.net,
            url@,
            Err(e),
        )),
{
    match fetch(url, options, permissions) {
        Ok(response) => response.json(),
        Err(e) => Err(e),
    }
}

/// TCP connection information.
#[derive(Debug, Clone)]
pub struct TcpConnection {
    /// Local address of the connection.
    pub local_addr: String,
    /// Peer (remote) address of the connection.
    pub peer_addr: String,
}

/// The host part of `host:port` (the text before the first `:`).
pub open spec fn host_part(address: Seq<char>) -> Seq<char> {
    match first_index_of(address, ':') {
        Some(i) => address.take(i),
        None => address,
    }
}

/// The index of the first `c` in `s`.
pub open spec fn first_index_of(s: Seq<char>, c: char) -> Option<int> {
    if exists|i: int| 0 <= i < s.len() && s[i] == c {
        Some(choose|i: int| 0 <= i < s.len() && s[i] == c && forall|k: int| 0 <= k < i ==> s[k] != c)
    } else {
        None
    }
}

fn host_of_address(address: &str) -> (r: String)
    ensures
        r@ == host_part(address@),
{
    let n = address.unicode_len();
    let mut i: usize = 0;
    while i < n
        invariant
            n == address@.len(),
            i <= n,
            forall|k: int| 0 <= k < i ==> address@[k] != ':',
        decreases n - i,
    {
        if address.get_char(i) == ':' {
            assert(0 <= i < address@.len() && address@[i as int] == ':' && forall|k: int|
                0 <= k < i ==> address@[k] != ':');
            let r = slice_chars(address, 0, i);
            proof {
                let j = first_index_of(address@, ':')->0;
                assert(j == i as int) by {
                    if j < i {
                        assert(address@[j] != ':');
                    }
                    if i < j {
                        assert(address@[i as int] != ':');
                    }
                }
            }
            return r;
        }
        i = i + 1;
    }
    owned(address)
}

/// Connect to a TCP address `host:port`. The host must be allowed; the
/// transport is not provided, so a permitted connection fails with
/// `ConnectionError`.
pub fn tcp_connect(address: &str, permissions: &Permissions) -> (r: NetResult<TcpConnection>)
    ensures
        r is Err,
        r matches Err(NetError::ConnectionError(_)) <==> permissions.net.state().allows(
            Some(host_part(address@)),
        ),
        !permissions.net.state().allows(Some(host_part(address@))) ==> (r matches Err(
            NetError::Permission(p),
        ) && p is Denied && p->Denied_0@ == NetPermission::denial(host_part(address@))),
{
    let hostname = host_of_address(address);
    match permissions.check_net(hostname.as_str()) {
        Err(e) => Err(NetError::Permission(e)),
        Ok(()) => Err(NetError::ConnectionError(owned("TCP connection not yet implemented"))),
    }
}

/// A WebSocket connection. The transport is not provided.
pub struct WebSocketConnection {
    url: String,
}

impl WebSocketConnection {
    /// The URL the connection was made for.
    pub closed spec fn url(&self) -> Seq<char> {
        self.url@
    }

    /// Connect to a WebSocket server. The host must be allowed; a permitted
    /// connection fails with `ConnectionError`.
    pub fn connect(url: &str, permissions: &Permissions) -> (r: NetResult<Self>)
        ensures
            r is Err,
            r matches Err(NetError::ConnectionError(_)) <==> check_url_permissions_ok(
                permissions,
                url@,
            ),
            !check_url_permissions_ok(permissions, url@) ==> (r matches Err(e) && url_gate_error(
                permissions.net,
                url@,
                Err(e),
            )),
    {
        match check_url_permissions(url, permissions) {
            Err(e) => Err(e),
            Ok(()) => Err(NetError::ConnectionError(owned("WebSocket not yet implemented"))),
        }
    }

    /// Send a message (not provided: always a connection error).
    pub fn send(&mut self, message: &str) -> (r: NetResult<()>)
        ensures
            r matches Err(NetError::ConnectionError(_)),
            final(self).url() == old(self).url(),
    {
        Err(NetError::ConnectionError(owned("WebSocket not yet implemented")))
    }

    /// Receive a message (not provided: always a connection error).
    pub fn recv(&mut self) -> (r: NetResult<String>)
        ensures
            r matches Err(NetError::ConnectionError(_)),
            final(self).url() == old(self).url(),
    {
        Err(NetError::ConnectionError(owned("WebSocket not yet implemented")))
    }

    /// Close the connection.
    pub fn close(self) -> (r: NetResult<()>)
        ensures
            r is Ok,
    {
        Ok(())
    }
}

} // verus!
