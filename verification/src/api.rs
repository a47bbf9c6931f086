//! The REST endpoints of the API: their methods, paths and the token each needs.
use vstd::prelude::*;

verus! {

/// The HTTP method of a call.
#[derive(Debug, Clone, Copy, PartialEq, Eq, Structural)]
pub enum HttpMethod {
    Get,
    Post,
}

/// The bearer token that an endpoint needs, besides the optional API key.
#[derive(Debug, Clone, Copy, PartialEq, Eq, Structural)]
pub enum AuthKind {
    /// No bearer token.
    Public,
    /// The JWT obtained through the signed auth message.
    Jwt,
    /// The OAuth token of a finalized OAuth connection.
    Oauth,
}

/// The name under which the token of `auth` is known, if it needs one.
pub open spec fn spec_token_name(auth: AuthKind) -> Option<Seq<char>> {
    match auth {
        AuthKind::Public => None,
        AuthKind::Jwt => Some("jwt_token"@),
        AuthKind::Oauth => Some("oauth_token"@),
    }
}

impl AuthKind {
    /// The name of the token this kind needs (`jwt_token`, `oauth_token`), if any.
    pub fn token_name(self) -> (name: Option<&'static str>)
        ensures
            name.is_some() == spec_token_name(self).is_some(),
            name matches Some(n) ==> spec_token_name(self) == Some(n@),
    {
        match self {
            AuthKind::Public => None,
            AuthKind::Jwt => Some("jwt_token"),
            AuthKind::Oauth => Some("oauth_token"),
        }
    }
}

/// Where the client keeps a token.
#[derive(Debug, Clone, Copy, PartialEq, Eq, Structural)]
pub enum TokenSlot {
    Jwt,
    Oauth,
}

/// The slot whose token `auth` needs, if any.
pub open spec fn spec_token_slot(auth: AuthKind) -> Option<TokenSlot> {
    match auth {
        AuthKind::Public => None,
        AuthKind::Jwt => Some(TokenSlot::Jwt),
        AuthKind::Oauth => Some(TokenSlot::Oauth),
    }
}

/// The name of a slot: `jwt_token` or `oauth_token`.
pub open spec fn spec_slot_name(slot: TokenSlot) -> Seq<char> {
    match slot {
        TokenSlot::Jwt => "jwt_token"@,
        TokenSlot::Oauth => "oauth_token"@,
    }
}

impl TokenSlot {
    /// The slot's name, which also names it in errors.
    pub fn name(self) -> (name: &'static str)
        ensures
            name@ == spec_slot_name(self),
            spec_token_name(match self {
                TokenSlot::Jwt => AuthKind::Jwt,
                TokenSlot::Oauth => AuthKind::Oauth,
            }) == Some(name@),
    {
        match self {
            TokenSlot::Jwt => "jwt_token",
            TokenSlot::Oauth => "oauth_token",
        }
    }
}

impl AuthKind {
    /// The slot from which the token of this kind is to be read, if it needs one.
    pub fn token_slot(self) -> (slot: Option<TokenSlot>)
        ensures
            slot == spec_token_slot(self),
    {
        match self {
            AuthKind::Public => None,
            AuthKind::Jwt => Some(TokenSlot::Jwt),
            AuthKind::Oauth => Some(TokenSlot::Oauth),
        }
    }
}

/// One call of the REST API, with the values that go into its path.
#[derive(Debug, Clone)]
pub enum Endpoint {
    AuthMessage,
    Auth,
    Categories,
    CategoryBySlug(String),
    Tags,
    Markets,
    MarketById(String),
    MarketStatistics(String),
    MarketLastSale(String),
    MarketOrderbook(String),
    OrderByHash(String),
    Orders,
    OrderMatchEvents,
    CreateOrder,
    RemoveOrders,
    ConnectedAccount,
    AccountActivity,
    SetReferral,
    Positions,
    PositionsByAddress(String),
    Search,
    OauthFinalize,
    OauthOrders,
    OauthCreateOrder,
    OauthCancelOrders,
    OauthPositions,
}

/// Method, path (relative to the base URL) and token of a call.
#[derive(Debug, Clone)]
pub struct Route {
    pub method: HttpMethod,
    pub path: String,
    pub auth: AuthKind,
}

impl Endpoint {
    /// The method of the endpoint.
    pub open spec fn spec_method(&self) -> HttpMethod {
        match self {
            Endpoint::Auth | Endpoint::CreateOrder | Endpoint::RemoveOrders
            | Endpoint::SetReferral | Endpoint::OauthFinalize | Endpoint::OauthOrders
            | Endpoint::OauthCreateOrder | Endpoint::OauthCancelOrders
            | Endpoint::OauthPositions => HttpMethod::Post,
            _ => HttpMethod::Get,
        }
    }

    /// The token the endpoint needs.
    pub open spec fn spec_auth(&self) -> AuthKind {
        match self {
            Endpoint::OrderByHash(_) | Endpoint::Orders | Endpoint::CreateOrder
            | Endpoint::RemoveOrders | Endpoint::ConnectedAccount | Endpoint::AccountActivity
            | Endpoint::SetReferral | Endpoint::Positions => AuthKind::Jwt,
            Endpoint::OauthOrders | Endpoint::OauthCreateOrder | Endpoint::OauthCancelOrders
            | Endpoint::OauthPositions => AuthKind::Oauth,
            _ => AuthKind::Public,
        }
    }

    /// The path of the endpoint; path values stand in it verbatim.
    pub open spec fn spec_path(&self) -> Seq<char> {
        match self {
            Endpoint::AuthMessage => "/v1/auth/message"@,
            Endpoint::Auth => "/v1/auth"@,
            Endpoint::Categories => "/v1/categories"@,
            Endpoint::CategoryBySlug(slug) => "/v1/categories/"@ + slug@,
            Endpoint::Tags => "/v1/tags"@,
            Endpoint::Markets => "/v1/markets"@,
            Endpoint::MarketById(id) => "/v1/markets/"@ + id@,
            Endpoint::MarketStatistics(id) => "/v1/markets/"@ + id@ + "/stats"@,
            Endpoint::MarketLastSale(id) => "/v1/markets/"@ + id@ + "/last-sale"@,
            Endpoint::MarketOrderbook(id) => "/v1/markets/"@ + id@ + "/orderbook"@,
            Endpoint::OrderByHash(hash) => "/v1/orders/"@ + hash@,
            Endpoint::Orders => "/v1/orders"@,
            Endpoint::OrderMatchEvents => "/v1/orders/matches"@,
            Endpoint::CreateOrder => "/v1/orders"@,
            Endpoint::RemoveOrders => "/v1/orders/remove"@,
            Endpoint::ConnectedAccount => "/v1/account"@,
            Endpoint::AccountActivity => "/v1/account/activity"@,
            Endpoint::SetReferral => "/v1/account/referral"@,
            Endpoint::Positions => "/v1/positions"@,
            Endpoint::PositionsByAddress(address) => "/v1/positions/"@ + address@,
            Endpoint::Search => "/v1/search"@,
            Endpoint::OauthFinalize => "/v1/oauth/finalize"@,
            Endpoint::OauthOrders => "/v1/oauth/orders"@,
            Endpoint::OauthCreateOrder => "/v1/oauth/orders/create"@,
            Endpoint::OauthCancelOrders => "/v1/oauth/orders/cancel"@,
            Endpoint::OauthPositions => "/v1/oauth/positions"@,
        }
    }

    /// The token this endpoint needs.
    pub fn auth(&self) -> (auth: AuthKind)
        ensures
            auth == self.spec_auth(),
    {
        match self {
            Endpoint::OrderByHash(_) | Endpoint::Orders | Endpoint::CreateOrder
            | Endpoint::RemoveOrders | Endpoint::ConnectedAccount | Endpoint::AccountActivity
            | Endpoint::SetReferral | Endpoint::Positions => AuthKind::Jwt,
            Endpoint::OauthOrders | Endpoint::OauthCreateOrder | Endpoint::OauthCancelOrders
            | Endpoint::OauthPositions => AuthKind::Oauth,
            _ => AuthKind::Public,
        }
    }

    /// The method of this endpoint.
    pub fn method(&self) -> (method: HttpMethod)
        ensures
            method == self.spec_method(),
    {
        match self {
            Endpoint::Auth | Endpoint::CreateOrder | Endpoint::RemoveOrders
            | Endpoint::SetReferral | Endpoint::OauthFinalize | Endpoint::OauthOrders
            | Endpoint::OauthCreateOrder | Endpoint::OauthCancelOrders
            | Endpoint::OauthPositions => HttpMethod::Post,
            _ => HttpMethod::Get,
        }
    }

    /// The path of this endpoint, relative to the base URL.
    pub fn path(&self) -> (path: String)
        ensures
            path@ == self.spec_path(),
    {
        match self {
            Endpoint::AuthMessage => String::from_str("/v1/auth/message"),
            Endpoint::Auth => String::from_str("/v1/auth"),
            Endpoint::Categories => String::from_str("/v1/categories"),
            Endpoint::CategoryBySlug(slug) => String::from_str("/v1/categories/").concat(slug.as_str()),
            Endpoint::Tags => String::from_str("/v1/tags"),
            Endpoint::Markets => String::from_str("/v1/markets"),
            Endpoint::MarketById(id) => String::from_str("/v1/markets/").concat(id.as_str()),
            Endpoint::MarketStatistics(id) => String::from_str("/v1/markets/").concat(id.as_str()).concat("/stats"),
            Endpoint::MarketLastSale(id) => String::from_str("/v1/markets/").concat(id.as_str()).concat("/last-sale"),
            Endpoint::MarketOrderbook(id) => String::from_str("/v1/markets/").concat(id.as_str()).concat("/orderbook"),
            Endpoint::OrderByHash(hash) => String::from_str("/v1/orders/").concat(hash.as_str()),
            Endpoint::Orders => String::from_str("/v1/orders"),
            Endpoint::OrderMatchEvents => String::from_str("/v1/orders/matches"),
            Endpoint::CreateOrder => String::from_str("/v1/orders"),
            Endpoint::RemoveOrders => String::from_str("/v1/orders/remove"),
            Endpoint::ConnectedAccount => String::from_str("/v1/account"),
            Endpoint::AccountActivity => String::from_str("/v1/account/activity"),
            Endpoint::SetReferral => String::from_str("/v1/account/referral"),
            Endpoint::Positions => String::from_str("/v1/positions"),
            Endpoint::PositionsByAddress(address) => String::from_str("/v1/positions/").concat(address.as_str()),
            Endpoint::Search => String::from_str("/v1/search"),
            Endpoint::OauthFinalize => String::from_str("/v1/oauth/finalize"),
            Endpoint::OauthOrders => String::from_str("/v1/oauth/orders"),
            Endpoint::OauthCreateOrder => String::from_str("/v1/oauth/orders/create"),
            Endpoint::OauthCancelOrders => String::from_str("/v1/oauth/orders/cancel"),
            Endpoint::OauthPositions => String::from_str("/v1/oauth/positions"),
        }
    }

    /// Method, path and token of this endpoint.
    pub fn route(&self) -> (route: Route)
        ensures
            route.method == self.spec_method(),
            route.path@ == self.spec_path(),
            route.auth == self.spec_auth(),
    {
        Route { method: self.method(), path: self.path(), auth: self.auth() }
    }
}

} // verus!
