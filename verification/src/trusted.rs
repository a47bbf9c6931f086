//! The outside types and calls that the verified code builds on.
//!
//! Every item here is believed by Verus without proof; each doc comment says
//! which outside function is called and what its contract claims of it.
use vstd::prelude::*;
use std::time::Duration;
use reqwest::header::HeaderValue;
use tokio_tungstenite::tungstenite::client::IntoClientRequest;
use tokio_tungstenite::tungstenite::http::Request;

verus! {

/// `reqwest::header::HeaderValue` (the `http` crate's header value), carried opaquely.
#[verifier::external_type_specification]
#[verifier::external_body]
pub struct ExHeaderValue(reqwest::header::HeaderValue);

/// `reqwest::Error`, carried opaquely inside `PredictError`.
#[verifier::external_type_specification]
#[verifier::external_body]
pub struct ExReqwestError(reqwest::Error);

/// `serde_json::Value`, carried opaquely through websocket messages.
#[verifier::external_type_specification]
#[verifier::external_body]
pub struct ExJsonValue(serde_json::Value);

/// `http::Request<T>` as re-exported by tungstenite: the websocket handshake request.
#[verifier::external_type_specification]
#[verifier::external_body]
#[verifier::reject_recursive_types(T)]
pub struct ExHttpRequest<T>(tokio_tungstenite::tungstenite::http::Request<T>);

/// Whether `c` may stand in an HTTP header value: the `http` crate accepts every
/// byte that is at least 32 except 127, and the tab. A character outside ASCII is
/// encoded in UTF-8 by bytes of 128 and above, all of them accepted.
pub open spec fn is_header_value_char(c: char) -> bool {
    (c as u32 >= 32 && c as u32 != 127) || c == '\t'
}

/// Whether every character of `s` may stand in an HTTP header value.
pub open spec fn valid_header_value(s: Seq<char>) -> bool {
    forall|i: int| 0 <= i < s.len() ==> is_header_value_char(#[trigger] s[i])
}

/// Whether `name` is a lower-case header name made of letters and dashes, which
/// `http`'s static header-name parser accepts without panicking.
pub open spec fn valid_static_header_name(name: Seq<char>) -> bool {
    &&& 0 < name.len() <= 64
    &&& forall|i: int|
        0 <= i < name.len() ==> (('a' <= #[trigger] name[i] && name[i] <= 'z') || name[i] == '-')
}

/// The text of a header value: its bytes read as UTF-8.
pub uninterp spec fn header_value_text(value: HeaderValue) -> Seq<char>;

/// Calls `HeaderValue::from_str`. Its source (`try_from_generic` with `is_valid`)
/// succeeds exactly when every byte of the UTF-8 text is at least 32 and not 127,
/// or is a tab; that is what the contract states, character by character. The
/// value built holds a copy of the text's bytes (`Bytes::copy_from_slice`), so its
/// text is `s`.
#[verifier::external_body]
pub(crate) fn header_value_from_str(s: &str) -> (r: Option<HeaderValue>)
    ensures
        r.is_some() == valid_header_value(s@),
        r matches Some(v) ==> header_value_text(v) == s@,
{
    HeaderValue::from_str(s).ok()
}

/// The headers of a request: each header name (lower case, as `http` stores it)
/// with the text of its first value.
pub uninterp spec fn request_headers(request: Request<()>) -> Map<Seq<char>, Seq<char>>;

/// The names of the headers of a fresh handshake request: tungstenite's builder
/// sets `Host`, `Connection`, `Upgrade`, `Sec-WebSocket-Version` and
/// `Sec-WebSocket-Key`, which `http` stores in lower case.
pub open spec fn handshake_header_names() -> Set<Seq<char>> {
    set![
        "host"@,
        "connection"@,
        "upgrade"@,
        "sec-websocket-version"@,
        "sec-websocket-key"@,
    ]
}

/// The URI of a request, as text.
pub uninterp spec fn request_uri(request: Request<()>) -> Seq<char>;

/// The URI that tungstenite's `into_client_request` gives the request it builds
/// for `endpoint`: the endpoint text parsed as an `http::Uri` (`str::parse`), as
/// text.
pub uninterp spec fn ws_endpoint_uri(endpoint: Seq<char>) -> Seq<char>;

/// The `Host` header value that tungstenite's `into_client_request` sets for
/// `endpoint`: the authority of the parsed URI, without any user information
/// before an `@`.
pub uninterp spec fn ws_endpoint_host(endpoint: Seq<char>) -> Seq<char>;

/// Whether tungstenite's `into_client_request` accepts `endpoint`: it parses the
/// text as a URI and asks for a non-empty host; the scheme is not looked at
/// until a connection is made. Its other work (a random
/// `Sec-WebSocket-Key`) does not decide success.
pub uninterp spec fn ws_endpoint_accepted(endpoint: Seq<char>) -> bool;

/// Calls `<&str as IntoClientRequest>::into_client_request`. The contract states
/// when it succeeds, as a function of the endpoint text; the URI of the request
/// built, which is the parsed endpoint (`.uri(self)` in the builder); and which
/// headers it holds: the five handshake headers (`Request::builder()` with five
/// `.header(..)` calls), with `Connection: Upgrade`, `Upgrade: websocket`,
/// `Sec-WebSocket-Version: 13`, and the endpoint's host. The value of
/// `Sec-WebSocket-Key` is random and left unsaid.
#[verifier::external_body]
pub(crate) fn ws_client_request(endpoint: &str) -> (r: Option<Request<()>>)
    ensures
        r.is_some() == ws_endpoint_accepted(endpoint@),
        r matches Some(req) ==> request_headers(req).dom() == handshake_header_names(),
        r matches Some(req) ==> request_headers(req).len() == 5,
        r matches Some(req) ==> request_uri(req) == ws_endpoint_uri(endpoint@),
        r matches Some(req) ==> request_headers(req)["host"@] == ws_endpoint_host(endpoint@),
        r matches Some(req) ==> request_headers(req)["connection"@] == "Upgrade"@,
        r matches Some(req) ==> request_headers(req)["upgrade"@] == "websocket"@,
        r matches Some(req) ==> request_headers(req)["sec-websocket-version"@] == "13"@,
{
    endpoint.into_client_request().ok()
}

/// Calls `HeaderMap::try_insert` on the request's headers with a static name. The
/// name parser panics on an invalid name, which `requires` leaves out. An insert
/// replaces every value of the name by the one given. It fails (`MaxSizeReached`)
/// only when the map must grow past 2^15 slots, which a map of fewer than 1024
/// names never does (growth at most doubles a table of at most five slots per
/// name); on failure the headers are unchanged. The request's URI is never touched.
#[verifier::external_body]
pub(crate) fn try_insert_header(request: &mut Request<()>, name: &'static str, value: HeaderValue) -> (inserted: bool)
    requires
        valid_static_header_name(name@),
    ensures
        request_headers(*old(request)).dom().finite() && request_headers(*old(request)).len()
            < 1024 ==> inserted,
        inserted ==> request_headers(*final(request)) == request_headers(*old(request)).insert(
            name@,
            header_value_text(value),
        ),
        !inserted ==> request_headers(*final(request)) == request_headers(*old(request)),
        request_uri(*final(request)) == request_uri(*old(request)),
{
    request.headers_mut().try_insert(name, value).is_ok()
}

/// `<serde_json::Value as Clone>::clone`, which `derive(Clone)` writes: the copy
/// equals the value it was made from.
pub assume_specification[ <serde_json::Value as Clone>::clone ](v: &serde_json::Value) -> (r: serde_json::Value)
    ensures
        r == *v,
;

/// `<Duration as Clone>::clone`: `Duration` is `Copy`, and its clone is the same span.
pub assume_specification[ <Duration as Clone>::clone ](d: &Duration) -> (r: Duration)
    ensures
        r == *d,
;

/// The total number of nanoseconds that a `Duration` holds (`Duration::as_nanos`).
pub uninterp spec fn duration_nanos(d: Duration) -> u128;

/// Calls `Duration::as_nanos`, the total number of whole nanoseconds.
#[verifier::external_body]
pub(crate) fn duration_as_nanos(d: &Duration) -> (n: u128)
    ensures
        n == duration_nanos(*d),
{
    d.as_nanos()
}

/// Calls `Duration::from_secs`: a span of `secs` whole seconds, that is `secs`
/// times one thousand million nanoseconds.
#[verifier::external_body]
pub(crate) fn duration_from_secs(secs: u64) -> (d: Duration)
    ensures
        duration_nanos(d) == secs * 1_000_000_000,
{
    Duration::from_secs(secs)
}

} // verus!
