//! Environments, client configuration and its validation.
use vstd::prelude::*;
use std::time::Duration;
use reqwest::header::HeaderValue;
use crate::error::{PredictError, is_config_error};
use crate::trusted::{
    duration_from_secs, duration_nanos, header_value_from_str, header_value_text,
    valid_header_value,
};

verus! {

/// Base URL of the production REST API.
pub const MAINNET_BASE_URL: &'static str = "https://api.predict.fun";

/// Base URL of the testnet REST API.
pub const TESTNET_BASE_URL: &'static str = "https://api-testnet.predict.fun";

/// The version that the default user agent announces.
pub const SDK_VERSION: &'static str = "0.1.0";

/// The product name that the default user agent announces, before a slash.
pub const USER_AGENT_PREFIX: &'static str = "predict-fun-sdk-rs/";

/// The media type that every request of the client accepts.
pub const ACCEPT_JSON: &'static str = "application/json";

/// The request timeout of the default configuration, in seconds.
pub const DEFAULT_TIMEOUT_SECS: u64 = 10;

/// The deployment a client talks to.
#[derive(Debug, Clone, Copy, PartialEq, Eq, Structural)]
pub enum Environment {
    Mainnet,
    Testnet,
}

/// The base URL that belongs to an environment.
pub open spec fn spec_base_url(env: Environment) -> Seq<char> {
    match env {
        Environment::Mainnet => MAINNET_BASE_URL@,
        Environment::Testnet => TESTNET_BASE_URL@,
    }
}

impl Environment {
    /// Returns the REST base URL of this environment.
    pub fn base_url(self) -> (url: &'static str)
        ensures
            url@ == spec_base_url(self),
    {
        match self {
            Environment::Mainnet => MAINNET_BASE_URL,
            Environment::Testnet => TESTNET_BASE_URL,
        }
    }
}

/// The user agent of the default configuration.
pub open spec fn default_user_agent() -> Seq<char> {
    USER_AGENT_PREFIX@ + SDK_VERSION@
}

/// What a client is built from.
#[derive(Debug, Clone)]
pub struct PredictClientConfig {
    pub base_url: String,
    pub api_key: Option<String>,
    pub jwt_token: Option<String>,
    pub oauth_token: Option<String>,
    pub timeout: Duration,
    pub user_agent: String,
}

impl Default for PredictClientConfig {
    /// The testnet, no credentials, a ten-second timeout and the SDK's user agent.
    fn default() -> (config: Self)
        ensures
            config.base_url@ == TESTNET_BASE_URL@,
            config.api_key is None,
            config.jwt_token is None,
            config.oauth_token is None,
            duration_nanos(config.timeout) == DEFAULT_TIMEOUT_SECS * 1_000_000_000,
            config.user_agent@ == default_user_agent(),
    {
        PredictClientConfig {
            base_url: String::from_str(TESTNET_BASE_URL),
            api_key: None,
            jwt_token: None,
            oauth_token: None,
            timeout: duration_from_secs(DEFAULT_TIMEOUT_SECS),
            user_agent: String::from_str(USER_AGENT_PREFIX).concat(SDK_VERSION),
        }
    }
}

impl PredictClientConfig {
    /// The default configuration with the base URL of `env`.
    pub fn from_environment(env: Environment) -> (config: Self)
        ensures
            config.base_url@ == spec_base_url(env),
            config.api_key is None,
            config.jwt_token is None,
            config.oauth_token is None,
            duration_nanos(config.timeout) == DEFAULT_TIMEOUT_SECS * 1_000_000_000,
            config.user_agent@ == default_user_agent(),
    {
        let mut config = PredictClientConfig::default();
        config.base_url = String::from_str(env.base_url());
        config
    }
}

/// `s` without the slashes at its end.
pub open spec fn trim_trailing_slashes(s: Seq<char>) -> Seq<char>
    decreases s.len(),
{
    if s.len() > 0 && s.last() == '/' {
        trim_trailing_slashes(s.drop_last())
    } else {
        s
    }
}

/// Removes every trailing `/` from a base URL, so that paths can be appended.
pub fn trim_base_url(url: &str) -> (trimmed: String)
    ensures
        trimmed@ == trim_trailing_slashes(url@),
{
    let len = url.unicode_len();
    let mut end: usize = len;
    assert(url@.subrange(0, len as int) =~= url@);
    while end > 0 && url.get_char(end - 1) == '/'
        invariant
            end <= len,
            len == url@.len(),
            trim_trailing_slashes(url@) == trim_trailing_slashes(url@.subrange(0, end as int)),
        decreases end,
    {
        proof {
            assert(url@.subrange(0, end as int).drop_last() =~= url@.subrange(0, end - 1));
        }
        end = end - 1;
    }
    assert(end > 0 ==> url@.subrange(0, end as int).last() == url@[end - 1]);
    String::from_str(url.substring_char(0, end))
}

/// A validated configuration, ready to build an HTTP client from.
#[derive(Debug)]
pub struct ClientSettings {
    /// The base URL without trailing slashes.
    pub base_url: String,
    /// The `user-agent` header value.
    pub user_agent: HeaderValue,
    /// The `accept` header value.
    pub accept: HeaderValue,
    pub timeout: Duration,
    pub api_key: Option<String>,
    pub jwt_token: Option<String>,
    pub oauth_token: Option<String>,
}

impl ClientSettings {
    /// Checks that the user agent can be sent as a header and strips the base
    /// URL's trailing slashes; the credentials and the timeout pass unchanged.
    /// Every request of the client is to send the user agent and accept JSON.
    pub fn new(config: PredictClientConfig) -> (r: Result<ClientSettings, PredictError>)
        ensures
            r is Ok <==> valid_header_value(config.user_agent@),
            r is Err ==> is_config_error(r->Err_0, "invalid user_agent"@),
            r matches Ok(s) ==> {
                &&& s.base_url@ == trim_trailing_slashes(config.base_url@)
                &&& header_value_text(s.user_agent) == config.user_agent@
                &&& header_value_text(s.accept) == ACCEPT_JSON@
                &&& s.timeout == config.timeout
                &&& s.api_key == config.api_key
                &&& s.jwt_token == config.jwt_token
                &&& s.oauth_token == config.oauth_token
            },
    {
        let user_agent = match header_value_from_str(config.user_agent.as_str()) {
            Some(v) => v,
            None => return Err(PredictError::Config("invalid user_agent")),
        };
        proof {
            reveal_strlit("application/json");
        }
        let accept = match header_value_from_str(ACCEPT_JSON) {
            Some(v) => v,
            None => vstd::pervasive::unreached(),
        };
        Ok(ClientSettings {
            base_url: trim_base_url(config.base_url.as_str()),
            user_agent,
            accept,
            timeout: config.timeout,
            api_key: config.api_key,
            jwt_token: config.jwt_token,
            oauth_token: config.oauth_token,
        })
    }
}

} // verus!
