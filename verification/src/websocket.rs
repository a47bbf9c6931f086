//! The websocket protocol: configuration, request and message envelopes, topics.
use vstd::prelude::*;
use std::time::Duration;
use serde_json::Value;
use tokio_tungstenite::tungstenite::http::Request;
use crate::error::{is_config_error, PredictError};
use crate::trusted::{
    duration_from_secs, duration_nanos, handshake_header_names, header_value_from_str,
    request_headers, request_uri, try_insert_header, valid_header_value, ws_client_request,
    ws_endpoint_accepted, ws_endpoint_host, ws_endpoint_uri,
};

verus! {

/// The websocket endpoint of the production API.
pub const PREDICT_WS_ENDPOINT: &'static str = "wss://ws.predict.fun/ws";

/// How many failed connection attempts in a row the default configuration accepts.
pub const DEFAULT_MAX_RECONNECT_ATTEMPTS: u32 = 25;

/// The longest pause between two connection attempts by default, in seconds.
pub const DEFAULT_MAX_RECONNECT_DELAY_SECS: u64 = 30;

/// The message of the error that a handle reports once the connection task is gone.
pub const COMMAND_CHANNEL_CLOSED: &'static str = "websocket command channel is closed";

/// The header that carries the API key.
pub const API_KEY_HEADER: &'static str = "x-api-key";

/// How a websocket connection is opened and kept open.
#[derive(Debug, Clone)]
pub struct PredictWebSocketConfig {
    pub endpoint: String,
    pub api_key: Option<String>,
    /// Failed connection attempts in a row after which the connection is given up.
    pub max_reconnect_attempts: u32,
    /// The longest pause between two connection attempts.
    pub max_reconnect_delay: Duration,
}

impl Default for PredictWebSocketConfig {
    /// The production endpoint, no API key, 25 attempts and pauses of at most 30 s.
    fn default() -> (config: Self)
        ensures
            config.endpoint@ == PREDICT_WS_ENDPOINT@,
            config.api_key is None,
            config.max_reconnect_attempts == DEFAULT_MAX_RECONNECT_ATTEMPTS,
            duration_nanos(config.max_reconnect_delay) == DEFAULT_MAX_RECONNECT_DELAY_SECS
                * 1_000_000_000,
    {
        PredictWebSocketConfig {
            endpoint: String::from_str(PREDICT_WS_ENDPOINT),
            api_key: None,
            max_reconnect_attempts: DEFAULT_MAX_RECONNECT_ATTEMPTS,
            max_reconnect_delay: duration_from_secs(DEFAULT_MAX_RECONNECT_DELAY_SECS),
        }
    }
}

impl PredictWebSocketConfig {
    /// Uses `api_key` (the REST client's key) when this configuration has none.
    pub fn with_fallback_api_key(self, api_key: Option<String>) -> (config: Self)
        ensures
            config.endpoint == self.endpoint,
            config.api_key == (if self.api_key is None { api_key } else { self.api_key }),
            config.max_reconnect_attempts == self.max_reconnect_attempts,
            config.max_reconnect_delay == self.max_reconnect_delay,
    {
        let mut config = self;
        if config.api_key.is_none() {
            config.api_key = api_key;
        }
        config
    }

    /// The handshake request: the endpoint, with the API key as `x-api-key` when
    /// one is set. Fails when the endpoint is not a URI with a host, or when the
    /// key cannot stand in a header; the scheme is checked only when connecting.
    pub fn build_request(&self) -> (r: Result<Request<()>, PredictError>)
        ensures
            r is Ok <==> handshake_ok(*self),
            !ws_endpoint_accepted(self.endpoint@) ==> is_config_error(
                r->Err_0,
                "invalid websocket endpoint"@,
            ),
            ws_endpoint_accepted(self.endpoint@) && !handshake_ok(*self) ==> is_config_error(
                r->Err_0,
                "invalid api key header"@,
            ),
            r matches Ok(q) ==> is_handshake_for(*self, q),
    {
        let mut request = match ws_client_request(self.endpoint.as_str()) {
            Some(request) => request,
            None => return Err(PredictError::Config("invalid websocket endpoint")),
        };
        proof {
            reveal_strlit("x-api-key");
            reveal_strlit("host");
            reveal_strlit("connection");
            reveal_strlit("upgrade");
            reveal_strlit("sec-websocket-version");
            reveal_strlit("sec-websocket-key");
            assert(request_headers(request).dom().finite());
            assert(API_KEY_HEADER@.len() == 9);
            assert(API_KEY_HEADER@ != "host"@);
            assert(API_KEY_HEADER@ != "connection"@);
            assert(API_KEY_HEADER@ != "upgrade"@);
            assert(API_KEY_HEADER@ != "sec-websocket-version"@);
            assert(API_KEY_HEADER@ != "sec-websocket-key"@);
            assert(!handshake_header_names().contains(API_KEY_HEADER@));
        }
        match &self.api_key {
            None => {},
            Some(api_key) => {
                let value = match header_value_from_str(api_key.as_str()) {
                    Some(value) => value,
                    None => return Err(PredictError::Config("invalid api key header")),
                };
                if !try_insert_header(&mut request, API_KEY_HEADER, value) {
                    return Err(PredictError::Config("invalid api key header"));
                }
            },
        }
        Ok(request)
    }
}

/// Whether `request` is a handshake request for `config`: it goes to the parsed
/// endpoint, holds the five handshake headers with the endpoint's host,
/// `Connection: Upgrade`, `Upgrade: websocket` and `Sec-WebSocket-Version: 13`
/// (the key being random), and `x-api-key` with the configured key exactly when
/// a key is configured.
pub open spec fn is_handshake_for(config: PredictWebSocketConfig, request: Request<()>) -> bool {
    &&& request_uri(request) == ws_endpoint_uri(config.endpoint@)
    &&& request_headers(request).contains_pair("host"@, ws_endpoint_host(config.endpoint@))
    &&& request_headers(request).contains_pair("connection"@, "Upgrade"@)
    &&& request_headers(request).contains_pair("upgrade"@, "websocket"@)
    &&& request_headers(request).contains_pair("sec-websocket-version"@, "13"@)
    &&& request_headers(request).dom() == (match config.api_key {
        Some(_) => handshake_header_names().insert(API_KEY_HEADER@),
        None => handshake_header_names(),
    })
    &&& config.api_key matches Some(k) ==> request_headers(request).contains_pair(
        API_KEY_HEADER@,
        k@,
    )
    &&& config.api_key is None ==> !request_headers(request).contains_key(API_KEY_HEADER@)
}

/// Whether a handshake request can be built for `config`: the endpoint is a URI
/// with a host (its scheme is checked only when connecting), and the API key, if
/// any, can stand in a header.
pub open spec fn handshake_ok(config: PredictWebSocketConfig) -> bool {
    &&& ws_endpoint_accepted(config.endpoint@)
    &&& config.api_key matches Some(k) ==> valid_header_value(k@)
}

/// The method of a request sent over the websocket.
#[derive(Debug, Clone, Copy, PartialEq, Eq, Structural)]
pub enum WsMethod {
    Subscribe,
    Unsubscribe,
    Heartbeat,
}

/// A request sent over the websocket.
#[derive(Debug, Clone)]
pub struct WsRequest {
    pub method: WsMethod,
    pub request_id: Option<u64>,
    pub params: Option<Vec<String>>,
    pub data: Option<Value>,
}

/// The error that the server attaches to a failed request.
#[derive(Debug, Clone)]
pub struct WsErrorPayload {
    pub code: String,
    pub message: String,
}

/// A message from the server.
#[allow(inconsistent_fields)]
#[derive(Debug, Clone)]
pub enum WsServerMessage {
    /// The answer to a request.
    Response { request_id: u64, success: bool, data: Option<Value>, error: Option<WsErrorPayload> },
    /// A message published on a topic.
    Push { topic: String, data: Value },
}

/// A topic that can be subscribed to.
#[derive(Debug, Clone)]
pub enum WsTopic {
    PredictOrderbook { market_id: String },
    AssetPriceUpdate { price_feed_id: String },
    PredictWalletEvents { jwt: String },
    Custom(String),
}

impl WsTopic {
    /// The topic's name on the wire.
    pub open spec fn spec_topic_string(&self) -> Seq<char> {
        match self {
            WsTopic::PredictOrderbook { market_id } => "predictOrderbook/"@ + market_id@,
            WsTopic::AssetPriceUpdate { price_feed_id } => "assetPriceUpdate/"@ + price_feed_id@,
            WsTopic::PredictWalletEvents { jwt } => "predictWalletEvents/"@ + jwt@,
            WsTopic::Custom(raw) => raw@,
        }
    }

    /// The topic's name on the wire: `predictOrderbook/{market_id}`,
    /// `assetPriceUpdate/{price_feed_id}`, `predictWalletEvents/{jwt}`, or the
    /// custom text as it is.
    pub fn as_topic_string(&self) -> (topic: String)
        ensures
            topic@ == self.spec_topic_string(),
    {
        match self {
            WsTopic::PredictOrderbook { market_id } => String::from_str("predictOrderbook/").concat(
                market_id.as_str(),
            ),
            WsTopic::AssetPriceUpdate { price_feed_id } => String::from_str(
                "assetPriceUpdate/",
            ).concat(price_feed_id.as_str()),
            WsTopic::PredictWalletEvents { jwt } => String::from_str("predictWalletEvents/").concat(
                jwt.as_str(),
            ),
            WsTopic::Custom(raw) => raw.clone(),
        }
    }
}

/// What a websocket handle asks of the connection that it drives.
#[derive(Debug)]
pub enum WsCommand {
    Subscribe { topic: String, request_id: u64 },
    Unsubscribe { topic: String, request_id: u64 },
    Raw(WsRequest),
    Close,
}

impl WsCommand {
    /// Subscribing to `topic` under the request id `request_id`.
    pub fn subscribe(topic: &WsTopic, request_id: u64) -> (cmd: WsCommand)
        ensures
            cmd matches WsCommand::Subscribe { topic: t, request_id: id } && t@
                == topic.spec_topic_string() && id == request_id,
    {
        WsCommand::Subscribe { topic: topic.as_topic_string(), request_id }
    }

    /// Unsubscribing from `topic` under the request id `request_id`.
    pub fn unsubscribe(topic: &WsTopic, request_id: u64) -> (cmd: WsCommand)
        ensures
            cmd matches WsCommand::Unsubscribe { topic: t, request_id: id } && t@
                == topic.spec_topic_string() && id == request_id,
    {
        WsCommand::Unsubscribe { topic: topic.as_topic_string(), request_id }
    }
}

} // verus!
