//! Properties of the endpoint table and of reconnection, stated without the
//! table's own spec functions: who needs which token, where calls go, and how
//! a lost connection counts.
use vstd::prelude::*;
use crate::api::{spec_token_name, AuthKind, Endpoint, HttpMethod};
use crate::laws::failed_rounds;
use crate::request::lacks_token;
use crate::session::{backoff_nanos, control_step, Control, Phase, SessionEvent};
use vstd::arithmetic::power2::{pow2, lemma2_to64};

verus! {

/// The calls on behalf of the connected account: its orders, its profile and
/// its positions.
pub open spec fn is_account_call(e: Endpoint) -> bool {
    ||| e is OrderByHash
    ||| e is Orders
    ||| e is CreateOrder
    ||| e is RemoveOrders
    ||| e is ConnectedAccount
    ||| e is AccountActivity
    ||| e is SetReferral
    ||| e is Positions
}

/// The restricted calls made through an OAuth connection once it is finalized.
pub open spec fn is_oauth_call(e: Endpoint) -> bool {
    ||| e is OauthOrders
    ||| e is OauthCreateOrder
    ||| e is OauthCancelOrders
    ||| e is OauthPositions
}

/// Who needs which token. The calls of the connected account need the JWT: with
/// none they fail with `MissingAuth("jwt_token")`. The restricted OAuth calls need
/// the OAuth token: with none they fail with `MissingAuth("oauth_token")`. Every
/// other call (auth message and JWT exchange, categories, tags, markets and
/// their details, order matches, positions by address, search, OAuth
/// finalization) needs no token and cannot fail for want of one.
pub proof fn lemma_token_requirements(e: Endpoint, token: Option<String>)
    ensures
        is_account_call(e) <==> e.spec_auth() == AuthKind::Jwt,
        is_oauth_call(e) <==> e.spec_auth() == AuthKind::Oauth,
        is_account_call(e) ==> lacks_token(e, None) && spec_token_name(e.spec_auth()) == Some(
            "jwt_token"@,
        ),
        is_oauth_call(e) ==> lacks_token(e, None) && spec_token_name(e.spec_auth()) == Some(
            "oauth_token"@,
        ),
        !is_account_call(e) && !is_oauth_call(e) ==> !lacks_token(e, token),
        lacks_token(e, token) <==> (is_account_call(e) || is_oauth_call(e)) && token is None,
{
}

/// Which calls send a body: those that create, remove, change or sign
/// something.
pub proof fn lemma_posting_calls(e: Endpoint)
    ensures
        e.spec_method() == HttpMethod::Post <==> (e is Auth || e is CreateOrder || e is RemoveOrders
            || e is SetReferral || e is OauthFinalize || is_oauth_call(e)),
{
}

/// The order calls of the connected account and where they go.
pub proof fn lemma_order_routes(hash: String)
    ensures
        Endpoint::CreateOrder.spec_method() == HttpMethod::Post,
        Endpoint::CreateOrder.spec_path() == "/v1/orders"@,
        Endpoint::RemoveOrders.spec_method() == HttpMethod::Post,
        Endpoint::RemoveOrders.spec_path() == "/v1/orders/remove"@,
        Endpoint::Orders.spec_method() == HttpMethod::Get,
        Endpoint::Orders.spec_path() == "/v1/orders"@,
        Endpoint::OrderByHash(hash).spec_method() == HttpMethod::Get,
        Endpoint::OrderByHash(hash).spec_path() == "/v1/orders/"@ + hash@,
{
}

/// Where every call goes: its method and its path, the path values standing in
/// it verbatim.
pub proof fn lemma_documented_routes(slug: String, id: String, hash: String, address: String)
    ensures
        Endpoint::AuthMessage.spec_method() == HttpMethod::Get,
        Endpoint::AuthMessage.spec_path() == "/v1/auth/message"@,
        Endpoint::Auth.spec_method() == HttpMethod::Post,
        Endpoint::Auth.spec_path() == "/v1/auth"@,
        Endpoint::Categories.spec_method() == HttpMethod::Get,
        Endpoint::Categories.spec_path() == "/v1/categories"@,
        Endpoint::CategoryBySlug(slug).spec_method() == HttpMethod::Get,
        Endpoint::CategoryBySlug(slug).spec_path() == "/v1/categories/"@ + slug@,
        Endpoint::Tags.spec_method() == HttpMethod::Get,
        Endpoint::Tags.spec_path() == "/v1/tags"@,
        Endpoint::Markets.spec_method() == HttpMethod::Get,
        Endpoint::Markets.spec_path() == "/v1/markets"@,
        Endpoint::MarketById(id).spec_method() == HttpMethod::Get,
        Endpoint::MarketById(id).spec_path() == "/v1/markets/"@ + id@,
        Endpoint::MarketStatistics(id).spec_method() == HttpMethod::Get,
        Endpoint::MarketStatistics(id).spec_path() == "/v1/markets/"@ + id@ + "/stats"@,
        Endpoint::MarketLastSale(id).spec_method() == HttpMethod::Get,
        Endpoint::MarketLastSale(id).spec_path() == "/v1/markets/"@ + id@ + "/last-sale"@,
        Endpoint::MarketOrderbook(id).spec_method() == HttpMethod::Get,
        Endpoint::MarketOrderbook(id).spec_path() == "/v1/markets/"@ + id@ + "/orderbook"@,
        Endpoint::OrderByHash(hash).spec_method() == HttpMethod::Get,
        Endpoint::OrderByHash(hash).spec_path() == "/v1/orders/"@ + hash@,
        Endpoint::Orders.spec_method() == HttpMethod::Get,
        Endpoint::Orders.spec_path() == "/v1/orders"@,
        Endpoint::OrderMatchEvents.spec_method() == HttpMethod::Get,
        Endpoint::OrderMatchEvents.spec_path() == "/v1/orders/matches"@,
        Endpoint::CreateOrder.spec_method() == HttpMethod::Post,
        Endpoint::CreateOrder.spec_path() == "/v1/orders"@,
        Endpoint::RemoveOrders.spec_method() == HttpMethod::Post,
        Endpoint::RemoveOrders.spec_path() == "/v1/orders/remove"@,
        Endpoint::ConnectedAccount.spec_method() == HttpMethod::Get,
        Endpoint::ConnectedAccount.spec_path() == "/v1/account"@,
        Endpoint::AccountActivity.spec_method() == HttpMethod::Get,
        Endpoint::AccountActivity.spec_path() == "/v1/account/activity"@,
        Endpoint::SetReferral.spec_method() == HttpMethod::Post,
        Endpoint::SetReferral.spec_path() == "/v1/account/referral"@,
        Endpoint::Positions.spec_method() == HttpMethod::Get,
        Endpoint::Positions.spec_path() == "/v1/positions"@,
        Endpoint::PositionsByAddress(address).spec_method() == HttpMethod::Get,
        Endpoint::PositionsByAddress(address).spec_path() == "/v1/positions/"@ + address@,
        Endpoint::Search.spec_method() == HttpMethod::Get,
        Endpoint::Search.spec_path() == "/v1/search"@,
        Endpoint::OauthFinalize.spec_method() == HttpMethod::Post,
        Endpoint::OauthFinalize.spec_path() == "/v1/oauth/finalize"@,
        Endpoint::OauthOrders.spec_method() == HttpMethod::Post,
        Endpoint::OauthOrders.spec_path() == "/v1/oauth/orders"@,
        Endpoint::OauthCreateOrder.spec_method() == HttpMethod::Post,
        Endpoint::OauthCreateOrder.spec_path() == "/v1/oauth/orders/create"@,
        Endpoint::OauthCancelOrders.spec_method() == HttpMethod::Post,
        Endpoint::OauthCancelOrders.spec_path() == "/v1/oauth/orders/cancel"@,
        Endpoint::OauthPositions.spec_method() == HttpMethod::Post,
        Endpoint::OauthPositions.spec_path() == "/v1/oauth/positions"@,
{
}

/// The value that stands in an endpoint's path, if it has one.
pub open spec fn path_value(e: Endpoint) -> Option<Seq<char>> {
    match e {
        Endpoint::CategoryBySlug(v) => Some(v@),
        Endpoint::MarketById(v) => Some(v@),
        Endpoint::MarketStatistics(v) => Some(v@),
        Endpoint::MarketLastSale(v) => Some(v@),
        Endpoint::MarketOrderbook(v) => Some(v@),
        Endpoint::OrderByHash(v) => Some(v@),
        Endpoint::PositionsByAddress(v) => Some(v@),
        _ => None,
    }
}

/// A number for each kind of call.
pub open spec fn call_kind(e: Endpoint) -> int {
    match e {
        Endpoint::AuthMessage => 0,
        Endpoint::Auth => 1,
        Endpoint::Categories => 2,
        Endpoint::CategoryBySlug(_) => 3,
        Endpoint::Tags => 4,
        Endpoint::Markets => 5,
        Endpoint::MarketById(_) => 6,
        Endpoint::MarketStatistics(_) => 7,
        Endpoint::MarketLastSale(_) => 8,
        Endpoint::MarketOrderbook(_) => 9,
        Endpoint::OrderByHash(_) => 10,
        Endpoint::Orders => 11,
        Endpoint::OrderMatchEvents => 12,
        Endpoint::CreateOrder => 13,
        Endpoint::RemoveOrders => 14,
        Endpoint::ConnectedAccount => 15,
        Endpoint::AccountActivity => 16,
        Endpoint::SetReferral => 17,
        Endpoint::Positions => 18,
        Endpoint::PositionsByAddress(_) => 19,
        Endpoint::Search => 20,
        Endpoint::OauthFinalize => 21,
        Endpoint::OauthOrders => 22,
        Endpoint::OauthCreateOrder => 23,
        Endpoint::OauthCancelOrders => 24,
        Endpoint::OauthPositions => 25,
    }
}

/// Calls without a path value never share method and path: each such route
/// belongs to one call.
pub proof fn lemma_fixed_routes_distinct(e1: Endpoint, e2: Endpoint)
    requires
        path_value(e1) is None,
        path_value(e2) is None,
        e1.spec_method() == e2.spec_method(),
        e1.spec_path() == e2.spec_path(),
    ensures
        call_kind(e1) == call_kind(e2),
{
    reveal_strlit("/v1/auth/message");
    reveal_strlit("/v1/auth");
    reveal_strlit("/v1/categories");
    reveal_strlit("/v1/tags");
    reveal_strlit("/v1/markets");
    reveal_strlit("/v1/orders");
    reveal_strlit("/v1/orders/matches");
    reveal_strlit("/v1/orders/remove");
    reveal_strlit("/v1/account");
    reveal_strlit("/v1/account/activity");
    reveal_strlit("/v1/account/referral");
    reveal_strlit("/v1/positions");
    reveal_strlit("/v1/search");
    reveal_strlit("/v1/oauth/finalize");
    reveal_strlit("/v1/oauth/orders");
    reveal_strlit("/v1/oauth/orders/create");
    reveal_strlit("/v1/oauth/orders/cancel");
    reveal_strlit("/v1/oauth/positions");
    let p1 = e1.spec_path();
    let p2 = e2.spec_path();
    assert(p1.len() == p2.len());
    assert(p1[4] == p2[4]);
    if p1.len() == 23 {
        assert(p1[18] == p2[18]);
    }
}

/// The fixed text before an endpoint's path value.
pub open spec fn path_prefix(e: Endpoint) -> Seq<char> {
    match e {
        Endpoint::CategoryBySlug(_) => "/v1/categories/"@,
        Endpoint::MarketById(_) | Endpoint::MarketStatistics(_) | Endpoint::MarketLastSale(_)
        | Endpoint::MarketOrderbook(_) => "/v1/markets/"@,
        Endpoint::OrderByHash(_) => "/v1/orders/"@,
        Endpoint::PositionsByAddress(_) => "/v1/positions/"@,
        _ => Seq::empty(),
    }
}

/// The fixed text after an endpoint's path value.
pub open spec fn path_suffix(e: Endpoint) -> Seq<char> {
    match e {
        Endpoint::MarketStatistics(_) => "/stats"@,
        Endpoint::MarketLastSale(_) => "/last-sale"@,
        Endpoint::MarketOrderbook(_) => "/orderbook"@,
        _ => Seq::empty(),
    }
}

/// The path of a call with a path value is its prefix, the value, and its suffix.
proof fn lemma_path_shape(e: Endpoint)
    requires
        path_value(e) is Some,
    ensures
        e.spec_path() == path_prefix(e) + path_value(e)->0 + path_suffix(e),
{
    let v = path_value(e)->0;
    assert(v + Seq::<char>::empty() =~= v);
    assert(path_prefix(e) + v + Seq::<char>::empty() =~= path_prefix(e) + v);
}

/// Equal texts with the same prefix and suffix have the same middle.
proof fn lemma_cancel(pre: Seq<char>, a: Seq<char>, b: Seq<char>, suf: Seq<char>)
    requires
        pre + a + suf == pre + b + suf,
    ensures
        a == b,
{
    let x = pre + a + suf;
    let y = pre + b + suf;
    assert(x.len() == pre.len() + a.len() + suf.len());
    assert(y.len() == pre.len() + b.len() + suf.len());
    assert(x.len() == y.len());
    assert(a.len() == b.len());
    assert forall|i: int| 0 <= i < a.len() implies a[i] == b[i] by {
        assert(x[pre.len() + i] == a[i]);
        assert(y[pre.len() + i] == b[i]);
    }
    assert(a =~= b);
}

/// A call with a path value keeps its value in the path: two calls of the same
/// kind with the same path carry the same value, and two calls of different
/// kinds with the same value never share a path.
pub proof fn lemma_valued_routes_distinct(e1: Endpoint, e2: Endpoint)
    requires
        path_value(e1) is Some,
        path_value(e2) is Some,
        e1.spec_path() == e2.spec_path(),
        call_kind(e1) == call_kind(e2) || path_value(e1) == path_value(e2),
    ensures
        call_kind(e1) == call_kind(e2),
        path_value(e1) == path_value(e2),
{
    reveal_strlit("/v1/categories/");
    reveal_strlit("/v1/markets/");
    reveal_strlit("/v1/orders/");
    reveal_strlit("/v1/positions/");
    reveal_strlit("/stats");
    reveal_strlit("/last-sale");
    reveal_strlit("/orderbook");
    lemma_path_shape(e1);
    lemma_path_shape(e2);
    let v1 = path_value(e1)->0;
    let v2 = path_value(e2)->0;
    let p1 = e1.spec_path();
    let p2 = e2.spec_path();
    if call_kind(e1) == call_kind(e2) {
        assert(path_prefix(e1) == path_prefix(e2));
        assert(path_suffix(e1) == path_suffix(e2));
        lemma_cancel(path_prefix(e1), v1, v2, path_suffix(e1));
    } else {
        assert(p1.len() == p2.len());
        if path_prefix(e1).len() + path_suffix(e1).len() == path_prefix(e2).len() + path_suffix(e2).len() {
            let k: int = 12 + v1.len() as int + 1;
            assert(p1[k] == ((path_prefix(e1) + v1) + path_suffix(e1))[k]);
            assert(p1[k] == path_suffix(e1)[1]);
            assert(p2[k] == path_suffix(e2)[1]);
        }
    }
}

/// A lost connection leaves the count of failed attempts as it was: the session
/// waits to reconnect, and only failed attempts bring it closer to giving up.
pub proof fn lemma_link_loss_keeps_count(c: Control, max: u32, handshake: bool)
    requires
        c.phase != Phase::Stopped,
    ensures
        control_step(c, max, handshake, SessionEvent::LinkLost) == (Control {
            phase: Phase::Disconnected,
            attempt: c.attempt,
        }),
{
}

/// A close command, or the loss of every handle, ends any session that has not
/// ended; a quiet event changes nothing; a successful connection clears the
/// count of failures.
pub proof fn lemma_close_connect_and_quiet(c: Control, max: u32, handshake: bool)
    requires
        c.phase != Phase::Stopped,
    ensures
        control_step(c, max, handshake, SessionEvent::Close).phase == Phase::Stopped,
        control_step(c, max, handshake, SessionEvent::Quiet) == c,
        control_step(c, max, handshake, SessionEvent::Connected) == (Control {
            phase: Phase::Connected,
            attempt: 0,
        }),
{
}

/// The pause starts at 250 ms after the first failure count of zero and doubles
/// with each failure until the tenth, after which it stays at 256 s.
pub proof fn lemma_backoff_doubles(attempt: u32)
    ensures
        backoff_nanos(0) == 250_000_000,
        attempt < 10 ==> backoff_nanos((attempt + 1) as u32) == 2 * backoff_nanos(attempt),
        attempt >= 10 ==> backoff_nanos(attempt) == 256_000_000_000,
{
    lemma2_to64();
    if attempt < 10 {
        assert(pow2((attempt + 1) as nat) == 2 * pow2(attempt as nat)) by {
            vstd::arithmetic::power2::lemma_pow2_unfold((attempt + 1) as nat);
        }
    }
}

/// After a successful connection is lost, the session keeps reconnecting: after
/// any `n` failed attempts, `n` at most the configured number, the count is `n`
/// and the next attempt is still allowed.
pub proof fn lemma_reconnects_after_link_loss(c: Control, max: u32, n: nat)
    requires
        c.phase != Phase::Stopped,
        max < u32::MAX,
        n <= max,
    ensures
        failed_rounds(
            control_step(control_step(c, max, true, SessionEvent::Connected), max, true, SessionEvent::LinkLost),
            max,
            true,
            n,
        ) == (Control { phase: Phase::Disconnected, attempt: n as u32 }),
        control_step(
            failed_rounds(
                control_step(control_step(c, max, true, SessionEvent::Connected), max, true, SessionEvent::LinkLost),
                max,
                true,
                n,
            ),
            max,
            true,
            SessionEvent::Attempt,
        ).phase == Phase::Disconnected,
{
    crate::laws::lemma_gives_up_after_max_failures(max, n);
}

} // verus!
