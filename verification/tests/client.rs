use predict_fun_sdk::api::{AuthKind, Endpoint, HttpMethod, TokenSlot};
use predict_fun_sdk::config::trim_base_url;
use predict_fun_sdk::request::{is_success_status, prepare_request, response_error};
use predict_fun_sdk::{
    ClientSettings, Environment, PredictClientConfig, PredictError, MAINNET_BASE_URL, TESTNET_BASE_URL,
};
use std::time::Duration;

#[test]
fn missing_jwt_fails_fast() {
    let settings = ClientSettings::new(PredictClientConfig::from_environment(Environment::Testnet))
        .expect("client config is valid");
    let err = prepare_request(&settings.base_url, &Endpoint::ConnectedAccount, None, None)
        .expect_err("should require JWT token");
    assert!(matches!(err, PredictError::MissingAuth("jwt_token")));
}

#[test]
fn environments_have_their_base_urls() {
    assert_eq!(Environment::Mainnet.base_url(), "https://api.predict.fun");
    assert_eq!(Environment::Testnet.base_url(), "https://api-testnet.predict.fun");
    assert_eq!(MAINNET_BASE_URL, "https://api.predict.fun");
    assert_eq!(TESTNET_BASE_URL, "https://api-testnet.predict.fun");
}

#[test]
fn default_config_targets_testnet() {
    let config = PredictClientConfig::default();
    assert_eq!(config.base_url, TESTNET_BASE_URL);
    assert!(config.api_key.is_none());
    assert!(config.jwt_token.is_none());
    assert!(config.oauth_token.is_none());
    assert_eq!(config.timeout, Duration::from_secs(10));
    assert_eq!(config.user_agent, "predict-fun-sdk-rs/0.1.0");
}

#[test]
fn config_from_environment_uses_its_url() {
    let config = PredictClientConfig::from_environment(Environment::Mainnet);
    assert_eq!(config.base_url, MAINNET_BASE_URL);
    assert_eq!(config.timeout, Duration::from_secs(10));
}

#[test]
fn settings_strip_trailing_slashes_and_keep_credentials() {
    let config = PredictClientConfig {
        base_url: "https://example.test/api///".to_string(),
        api_key: Some("key".to_string()),
        jwt_token: Some("jwt".to_string()),
        ..Default::default()
    };
    let settings = ClientSettings::new(config).expect("valid user agent");
    assert_eq!(settings.base_url, "https://example.test/api");
    assert_eq!(settings.api_key.as_deref(), Some("key"));
    assert_eq!(settings.jwt_token.as_deref(), Some("jwt"));
    assert!(settings.oauth_token.is_none());
    assert_eq!(settings.timeout, Duration::from_secs(10));
    assert_eq!(settings.user_agent, "predict-fun-sdk-rs/0.1.0");
    assert_eq!(settings.accept, "application/json");
}

#[test]
fn settings_keep_a_custom_user_agent() {
    let config = PredictClientConfig { user_agent: "my-bot/2".to_string(), ..Default::default() };
    let settings = ClientSettings::new(config).expect("valid user agent");
    assert_eq!(settings.user_agent, "my-bot/2");
}

#[test]
fn invalid_user_agent_is_a_config_error() {
    let config = PredictClientConfig { user_agent: "bad\nagent".to_string(), ..Default::default() };
    let err = ClientSettings::new(config).expect_err("newline is not allowed in a header");
    assert!(matches!(err, PredictError::Config("invalid user_agent")));
}

#[test]
fn user_agent_may_hold_tabs_and_non_ascii() {
    let config = PredictClientConfig { user_agent: "agent\tv1 \u{e9}".to_string(), ..Default::default() };
    assert!(ClientSettings::new(config).is_ok());
    let config = PredictClientConfig { user_agent: "del\u{7f}".to_string(), ..Default::default() };
    assert!(ClientSettings::new(config).is_err());
}

#[test]
fn trimming_base_urls() {
    assert_eq!(trim_base_url("https://a.b/"), "https://a.b");
    assert_eq!(trim_base_url("https://a.b"), "https://a.b");
    assert_eq!(trim_base_url("///"), "");
    assert_eq!(trim_base_url(""), "");
    assert_eq!(trim_base_url(&trim_base_url("x//")), trim_base_url("x//"));
}

#[test]
fn routes_of_endpoints() {
    let r = Endpoint::CategoryBySlug("sports".to_string()).route();
    assert_eq!(r.path, "/v1/categories/sports");
    assert_eq!(r.method, HttpMethod::Get);
    assert_eq!(r.auth, AuthKind::Public);

    let r = Endpoint::MarketStatistics("42".to_string()).route();
    assert_eq!(r.path, "/v1/markets/42/stats");
    let r = Endpoint::MarketLastSale("42".to_string()).route();
    assert_eq!(r.path, "/v1/markets/42/last-sale");
    let r = Endpoint::MarketOrderbook("42".to_string()).route();
    assert_eq!(r.path, "/v1/markets/42/orderbook");
    let r = Endpoint::MarketById("42".to_string()).route();
    assert_eq!(r.path, "/v1/markets/42");

    let r = Endpoint::OrderByHash("0xabc".to_string()).route();
    assert_eq!(r.path, "/v1/orders/0xabc");
    assert_eq!(r.auth, AuthKind::Jwt);

    let r = Endpoint::CreateOrder.route();
    assert_eq!(r.path, "/v1/orders");
    assert_eq!(r.method, HttpMethod::Post);
    assert_eq!(r.auth, AuthKind::Jwt);

    let r = Endpoint::OrderMatchEvents.route();
    assert_eq!(r.path, "/v1/orders/matches");
    assert_eq!(r.auth, AuthKind::Public);

    let r = Endpoint::PositionsByAddress("0xdef".to_string()).route();
    assert_eq!(r.path, "/v1/positions/0xdef");
    assert_eq!(r.auth, AuthKind::Public);

    let r = Endpoint::OauthFinalize.route();
    assert_eq!(r.path, "/v1/oauth/finalize");
    assert_eq!(r.method, HttpMethod::Post);
    assert_eq!(r.auth, AuthKind::Public);

    let r = Endpoint::OauthCancelOrders.route();
    assert_eq!(r.path, "/v1/oauth/orders/cancel");
    assert_eq!(r.auth, AuthKind::Oauth);

    let r = Endpoint::AuthMessage.route();
    assert_eq!(r.path, "/v1/auth/message");
    assert_eq!(r.method, HttpMethod::Get);
    let r = Endpoint::Auth.route();
    assert_eq!(r.path, "/v1/auth");
    assert_eq!(r.method, HttpMethod::Post);
}

#[test]
fn every_endpoint_is_versioned() {
    let all = vec![
        Endpoint::AuthMessage,
        Endpoint::Auth,
        Endpoint::Categories,
        Endpoint::CategoryBySlug("s".to_string()),
        Endpoint::Tags,
        Endpoint::Markets,
        Endpoint::MarketById("1".to_string()),
        Endpoint::MarketStatistics("1".to_string()),
        Endpoint::MarketLastSale("1".to_string()),
        Endpoint::MarketOrderbook("1".to_string()),
        Endpoint::OrderByHash("h".to_string()),
        Endpoint::Orders,
        Endpoint::OrderMatchEvents,
        Endpoint::CreateOrder,
        Endpoint::RemoveOrders,
        Endpoint::ConnectedAccount,
        Endpoint::AccountActivity,
        Endpoint::SetReferral,
        Endpoint::Positions,
        Endpoint::PositionsByAddress("a".to_string()),
        Endpoint::Search,
        Endpoint::OauthFinalize,
        Endpoint::OauthOrders,
        Endpoint::OauthCreateOrder,
        Endpoint::OauthCancelOrders,
        Endpoint::OauthPositions,
    ];
    for endpoint in &all {
        assert!(endpoint.path().starts_with("/v1/"));
    }
}

#[test]
fn prepared_request_joins_url_and_credentials() {
    let p = prepare_request(
        "https://api.predict.fun",
        &Endpoint::Orders,
        Some("key".to_string()),
        Some("jwt".to_string()),
    )
    .expect("token present");
    assert_eq!(p.url, "https://api.predict.fun/v1/orders");
    assert_eq!(p.method, HttpMethod::Get);
    assert_eq!(p.api_key.as_deref(), Some("key"));
    assert_eq!(p.bearer_token.as_deref(), Some("jwt"));
}

#[test]
fn public_endpoints_send_no_bearer_token() {
    let p = prepare_request("https://h", &Endpoint::Tags, None, Some("ignored".to_string()))
        .expect("public endpoint");
    assert_eq!(p.url, "https://h/v1/tags");
    assert!(p.bearer_token.is_none());
    assert!(p.api_key.is_none());
}

#[test]
fn missing_oauth_token_is_reported() {
    let err = prepare_request("https://h", &Endpoint::OauthPositions, Some("k".to_string()), None)
        .expect_err("oauth token needed");
    assert!(matches!(err, PredictError::MissingAuth("oauth_token")));
    let p = prepare_request("https://h", &Endpoint::OauthPositions, None, Some("o".to_string()))
        .expect("oauth token present");
    assert_eq!(p.method, HttpMethod::Post);
    assert_eq!(p.bearer_token.as_deref(), Some("o"));
}

#[test]
fn token_names() {
    assert_eq!(AuthKind::Public.token_name(), None);
    assert_eq!(AuthKind::Jwt.token_name(), Some("jwt_token"));
    assert_eq!(AuthKind::Oauth.token_name(), Some("oauth_token"));
}

#[test]
fn success_statuses() {
    assert!(!is_success_status(199));
    assert!(is_success_status(200));
    assert!(is_success_status(204));
    assert!(is_success_status(299));
    assert!(!is_success_status(300));
    assert!(!is_success_status(404));
    assert!(!is_success_status(500));
}

#[test]
fn environment_urls_need_no_trimming() {
    assert_eq!(trim_base_url(MAINNET_BASE_URL), MAINNET_BASE_URL);
    assert_eq!(trim_base_url(TESTNET_BASE_URL), TESTNET_BASE_URL);
}

#[test]
fn token_slots() {
    assert_eq!(AuthKind::Public.token_slot(), None);
    assert_eq!(AuthKind::Jwt.token_slot(), Some(TokenSlot::Jwt));
    assert_eq!(AuthKind::Oauth.token_slot(), Some(TokenSlot::Oauth));
    assert_eq!(TokenSlot::Jwt.name(), "jwt_token");
    assert_eq!(TokenSlot::Oauth.name(), "oauth_token");
}

#[test]
fn failed_statuses_become_api_errors() {
    assert!(response_error(200, "ok".to_string()).is_none());
    match response_error(404, "not found".to_string()) {
        Some(PredictError::Api { status, body }) => {
            assert_eq!(status, 404);
            assert_eq!(body, "not found");
        }
        other => panic!("unexpected {:?}", other),
    }
}
