//! What a REST call sends, decided before anything goes over the network.
use vstd::prelude::*;
use crate::api::{spec_token_name, AuthKind, Endpoint, HttpMethod};
use crate::error::{is_missing_auth, PredictError};

verus! {

/// A call ready to be sent: the query and the body are added by the transport.
#[derive(Debug, Clone)]
pub struct PreparedRequest {
    pub method: HttpMethod,
    /// The base URL followed by the endpoint's path.
    pub url: String,
    /// Sent as the `x-api-key` header when present.
    pub api_key: Option<String>,
    /// Sent as the bearer token when present.
    pub bearer_token: Option<String>,
}

/// Whether `endpoint` needs a token and `token` does not provide one.
pub open spec fn lacks_token(endpoint: Endpoint, token: Option<String>) -> bool {
    endpoint.spec_auth() != AuthKind::Public && token is None
}

/// Builds the request for `endpoint`. `api_key` is the client's API key and
/// `token` the client's token of the kind that the endpoint needs (ignored for
/// a public endpoint). A missing token fails with `MissingAuth` naming it.
pub fn prepare_request(
    base_url: &str,
    endpoint: &Endpoint,
    api_key: Option<String>,
    token: Option<String>,
) -> (r: Result<PreparedRequest, PredictError>)
    ensures
        r is Err <==> lacks_token(*endpoint, token),
        r is Err ==> is_missing_auth(r->Err_0, spec_token_name(endpoint.spec_auth())->0),
        r matches Ok(p) ==> {
            &&& p.method == endpoint.spec_method()
            &&& p.url@ == base_url@ + endpoint.spec_path()
            &&& p.api_key == api_key
            &&& p.bearer_token == (if endpoint.spec_auth() == AuthKind::Public {
                None
            } else {
                token
            })
        },
{
    let route = endpoint.route();
    let bearer_token = match route.auth.token_name() {
        None => None,
        Some(name) => match token {
            Some(t) => Some(t),
            None => return Err(PredictError::MissingAuth(name)),
        },
    };
    let url = String::from_str(base_url).concat(route.path.as_str());
    Ok(PreparedRequest { method: route.method, url, api_key, bearer_token })
}

/// Whether an HTTP status is a success (`200..=299`), as `StatusCode::is_success`.
pub fn is_success_status(status: u16) -> (ok: bool)
    ensures
        ok == (200 <= status && status <= 299),
{
    200 <= status && status <= 299
}

/// The error owed for a reply with status `status` and body `body`: none for a
/// success (`200..=299`), and `Api` carrying both otherwise.
pub fn response_error(status: u16, body: String) -> (e: Option<PredictError>)
    ensures
        e is None <==> (200 <= status && status <= 299),
        e matches Some(err) ==> (err matches PredictError::Api { status: s, body: b } && s == status
            && b == body),
{
    if is_success_status(status) {
        None
    } else {
        Some(PredictError::Api { status, body })
    }
}

} // verus!
