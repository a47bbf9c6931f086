//! The payloads of REST calls: request bodies and query parameters.
//!
//! Field names are given in snake case; on the wire the transport writes them in
//! camel case where the API asks for it, and leaves out every field that is `None`.
use vstd::prelude::*;

verus! {

/// A reply of the API: a success flag beside the payload's own fields.
#[derive(Debug, Clone)]
pub struct ApiEnvelope<T> {
    pub success: bool,
    pub payload: T,
}

/// The signed auth message that is exchanged for a JWT.
#[derive(Debug, Clone)]
pub struct AuthRequest {
    pub signer: String,
    pub signature: String,
    pub message: String,
}

/// A request of the OAuth endpoints, signed by the account's signer.
#[derive(Debug, Clone)]
pub struct OauthSignedRequest<T> {
    pub signer: String,
    pub account: String,
    pub signature: String,
    pub data: T,
}

/// The body of an order creation.
#[derive(Debug, Clone)]
pub struct CreateOrderRequest {
    pub data: CreateOrderData,
}

/// An order to place, with its pricing strategy.
#[derive(Debug, Clone)]
pub struct CreateOrderData {
    pub price_per_share: String,
    pub strategy: String,
    pub slippage_bps: Option<String>,
    pub is_fill_or_kill: Option<bool>,
    pub order: SignedOrder,
}

/// An order signed by its maker.
#[derive(Debug, Clone)]
pub struct SignedOrder {
    pub hash: Option<String>,
    pub salt: String,
    pub maker: String,
    pub signer: String,
    pub taker: String,
    pub token_id: String,
    pub maker_amount: String,
    pub taker_amount: String,
    pub expiration: StringOrInt,
    pub nonce: String,
    pub fee_rate_bps: String,
    pub side: u8,
    pub signature_type: u8,
    pub signature: String,
}

/// A value that the API accepts either as text or as a number.
#[derive(Debug, Clone)]
pub enum StringOrInt {
    String(String),
    Int(i64),
}

/// The body of an order removal.
#[derive(Debug, Clone)]
pub struct RemoveOrdersRequest {
    pub data: IdsData,
}

/// A list of order ids.
#[derive(Debug, Clone)]
pub struct IdsData {
    pub ids: Vec<String>,
}

/// The body of a referral setting.
#[derive(Debug, Clone)]
pub struct SetReferralRequest {
    pub data: ReferralData,
}

/// A referral code.
#[derive(Debug, Clone)]
pub struct ReferralData {
    pub referral_code: String,
}

/// What finalizes an OAuth connection.
#[derive(Debug, Clone)]
pub struct FinalizeOauthData {
    pub timestamp: i64,
    pub client_id: String,
    pub auth_code: String,
}

/// The orders query of the OAuth endpoints.
#[derive(Debug, Clone, Default)]
pub struct OauthGetOrdersData {
    pub timestamp: i64,
    pub first: Option<u32>,
    pub after: Option<String>,
    pub status: Option<String>,
}

/// The positions query of the OAuth endpoints.
#[derive(Debug, Clone, Default)]
pub struct OauthGetPositionsData {
    pub timestamp: i64,
    pub first: Option<u32>,
    pub after: Option<String>,
}

/// The orders to cancel through the OAuth endpoints.
#[derive(Debug, Clone)]
pub struct OauthCancelOrdersData {
    pub timestamp: i64,
    pub ids: Vec<String>,
}

/// A page: how many items, and after which cursor.
#[derive(Debug, Clone, Default)]
pub struct PaginationQuery {
    pub first: Option<u32>,
    pub after: Option<String>,
}

/// The filters of the category listing.
#[derive(Debug, Clone, Default)]
pub struct GetCategoriesQuery {
    pub first: Option<u32>,
    pub after: Option<String>,
    pub status: Option<String>,
    pub sort: Option<String>,
    pub tag_ids: Option<Vec<String>>,
    pub market_variant: Option<String>,
}

/// The filters of the market listing.
#[derive(Debug, Clone, Default)]
pub struct GetMarketsQuery {
    pub first: Option<u32>,
    pub after: Option<String>,
    pub is_boosted: Option<bool>,
    pub status: Option<String>,
    pub tag_ids: Option<Vec<String>>,
    pub market_variant: Option<String>,
    pub sort: Option<String>,
}

/// The filters of the order listing.
#[derive(Debug, Clone, Default)]
pub struct GetOrdersQuery {
    pub first: Option<u32>,
    pub after: Option<String>,
    pub status: Option<String>,
}

/// The filters of the order-match listing.
#[derive(Debug, Clone, Default)]
pub struct GetOrderMatchEventsQuery {
    pub first: Option<u32>,
    pub after: Option<String>,
    pub category_id: Option<String>,
    pub market_id: Option<String>,
    pub min_value_usdt_wei: Option<String>,
    pub signer_address: Option<String>,
    pub is_signer_maker: Option<bool>,
}

/// A page of the account activity.
#[derive(Debug, Clone, Default)]
pub struct AccountActivityQuery {
    pub first: Option<u32>,
    pub after: Option<String>,
}

/// A search over categories and markets.
#[derive(Debug, Clone)]
pub struct SearchQuery {
    pub query: String,
    pub include_resolved: Option<bool>,
    pub limit: Option<u32>,
}

} // verus!
