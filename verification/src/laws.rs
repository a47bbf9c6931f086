//! Properties of the library that span its functions.
use vstd::prelude::*;
use crate::api::Endpoint;
use crate::config::{spec_base_url, trim_trailing_slashes, Environment};
use crate::session::{
    topic_step, TopicEvent,
    backoff_nanos, control_step, spec_reconnect_delay_nanos, Control, Phase, SessionEvent,
    MAX_BACKOFF_EXPONENT,
};
use crate::websocket::WsTopic;
use vstd::arithmetic::power2::{pow2, lemma2_to64, lemma_pow2_strictly_increases};

verus! {

/// Whether `path` begins with `/v1/`.
pub open spec fn is_versioned_path(path: Seq<char>) -> bool {
    &&& path.len() >= 4
    &&& path[0] == '/'
    &&& path[1] == 'v'
    &&& path[2] == '1'
    &&& path[3] == '/'
}

/// Every endpoint lives under `/v1/`, whatever values stand in its path.
pub proof fn lemma_paths_are_versioned(endpoint: Endpoint)
    ensures
        is_versioned_path(endpoint.spec_path()),
{
    reveal_strlit("/v1/auth/message");
    reveal_strlit("/v1/auth");
    reveal_strlit("/v1/categories");
    reveal_strlit("/v1/categories/");
    reveal_strlit("/v1/tags");
    reveal_strlit("/v1/markets");
    reveal_strlit("/v1/markets/");
    reveal_strlit("/v1/orders/");
    reveal_strlit("/v1/orders");
    reveal_strlit("/v1/orders/matches");
    reveal_strlit("/v1/orders/remove");
    reveal_strlit("/v1/account");
    reveal_strlit("/v1/account/activity");
    reveal_strlit("/v1/account/referral");
    reveal_strlit("/v1/positions");
    reveal_strlit("/v1/positions/");
    reveal_strlit("/v1/search");
    reveal_strlit("/v1/oauth/finalize");
    reveal_strlit("/v1/oauth/orders");
    reveal_strlit("/v1/oauth/orders/create");
    reveal_strlit("/v1/oauth/orders/cancel");
    reveal_strlit("/v1/oauth/positions");
}

/// A base URL stripped of its trailing slashes no longer ends with one.
pub proof fn lemma_trimmed_has_no_trailing_slash(url: Seq<char>)
    ensures
        trim_trailing_slashes(url).len() == 0 || trim_trailing_slashes(url).last() != '/',
    decreases url.len(),
{
    if url.len() > 0 && url.last() == '/' {
        lemma_trimmed_has_no_trailing_slash(url.drop_last());
    }
}

/// Stripping removes only slashes, and only at the end: the URL is the stripped
/// URL followed by nothing but slashes.
pub proof fn lemma_trim_removes_only_trailing_slashes(url: Seq<char>)
    ensures
        trim_trailing_slashes(url).len() <= url.len(),
        url.subrange(0, trim_trailing_slashes(url).len() as int) == trim_trailing_slashes(url),
        forall|i: int|
            trim_trailing_slashes(url).len() <= i < url.len() ==> #[trigger] url[i] == '/',
    decreases url.len(),
{
    if url.len() > 0 && url.last() == '/' {
        let shorter = url.drop_last();
        lemma_trim_removes_only_trailing_slashes(shorter);
        let t = trim_trailing_slashes(url);
        assert(url.subrange(0, t.len() as int) =~= shorter.subrange(0, t.len() as int));
        assert forall|i: int| t.len() <= i < url.len() implies #[trigger] url[i] == '/' by {
            if i < shorter.len() {
                assert(shorter[i] == '/');
            }
        }
    } else {
        assert(url.subrange(0, url.len() as int) =~= url);
    }
}

/// Stripping twice is stripping once.
pub proof fn lemma_trim_idempotent(url: Seq<char>)
    ensures
        trim_trailing_slashes(trim_trailing_slashes(url)) == trim_trailing_slashes(url),
{
    lemma_trimmed_has_no_trailing_slash(url);
}

/// The base URLs of the environments need no stripping.
pub proof fn lemma_environment_urls_are_trimmed(env: Environment)
    ensures
        trim_trailing_slashes(spec_base_url(env)) == spec_base_url(env),
{
    reveal_strlit("https://api.predict.fun");
    reveal_strlit("https://api-testnet.predict.fun");
}

/// The pause before a reconnection is never longer than the configured maximum,
/// nor than 256 seconds.
pub proof fn lemma_reconnect_delay_bounded(attempt: u32, max_delay_nanos: u128)
    ensures
        spec_reconnect_delay_nanos(attempt, max_delay_nanos) <= max_delay_nanos,
        spec_reconnect_delay_nanos(attempt, max_delay_nanos) <= 256_000_000_000,
{
    lemma2_to64();
    if attempt < MAX_BACKOFF_EXPONENT {
        lemma_pow2_strictly_increases(attempt as nat, 10);
    }
}

/// Pauses never shrink as failures accumulate.
pub proof fn lemma_reconnect_delay_monotone(a: u32, b: u32, max_delay_nanos: u128)
    requires
        a <= b,
    ensures
        spec_reconnect_delay_nanos(a, max_delay_nanos) <= spec_reconnect_delay_nanos(b, max_delay_nanos),
{
    let ea: nat = if a < MAX_BACKOFF_EXPONENT { a as nat } else { 10 };
    let eb: nat = if b < MAX_BACKOFF_EXPONENT { b as nat } else { 10 };
    if ea < eb {
        lemma_pow2_strictly_increases(ea, eb);
    }
    assert(backoff_nanos(a) <= backoff_nanos(b)) by (nonlinear_arith)
        requires
            pow2(ea) <= pow2(eb),
            backoff_nanos(a) == pow2(ea) * 250 * 1_000_000,
            backoff_nanos(b) == pow2(eb) * 250 * 1_000_000,
    ;
}

/// The control state after the events `events`, one after the other.
pub open spec fn run_control(c: Control, max: u32, handshake: bool, events: Seq<SessionEvent>) -> Control
    decreases events.len(),
{
    if events.len() == 0 {
        c
    } else {
        run_control(control_step(c, max, handshake, events[0]), max, handshake, events.drop_first())
    }
}

/// A session that has stopped stays stopped, whatever happens after.
pub proof fn lemma_stopped_is_final(c: Control, max: u32, handshake: bool, events: Seq<SessionEvent>)
    requires
        c.phase == Phase::Stopped,
    ensures
        run_control(c, max, handshake, events) == c,
    decreases events.len(),
{
    if events.len() > 0 {
        lemma_stopped_is_final(c, max, handshake, events.drop_first());
    }
}

/// Running a prefix one event longer is one more step after the first event.
proof fn lemma_run_prefix(c: Control, max: u32, handshake: bool, events: Seq<SessionEvent>, k: int)
    requires
        0 <= k < events.len(),
    ensures
        run_control(c, max, handshake, events.take(k + 1)) == run_control(
            control_step(c, max, handshake, events[0]),
            max,
            handshake,
            events.drop_first().take(k),
        ),
{
    assert(events.take(k + 1).drop_first() =~= events.drop_first().take(k));
}

/// Whether the event `e`, met in the control state `c`, is a reason to stop: a
/// close command (or the loss of every handle), or an attempt after more
/// failures in a row than configured, or when no handshake request can be built.
pub open spec fn is_stop_reason(c: Control, max: u32, handshake: bool, e: SessionEvent) -> bool {
    ||| e is Close
    ||| e is Attempt && (c.attempt > max || !handshake)
}

/// A session ends only for a reason: whenever a run of events takes a session
/// that has not stopped to the stopped phase, one of the events is a close
/// command, or an attempt made after more than `max` failures in a row or
/// without a buildable handshake. A lost connection, a failed connection or a
/// failed write never ends it by itself.
pub proof fn lemma_stops_only_for_a_reason(c: Control, max: u32, handshake: bool, events: Seq<SessionEvent>)
    requires
        c.phase != Phase::Stopped,
        run_control(c, max, handshake, events).phase == Phase::Stopped,
    ensures
        exists|i: int|
            0 <= i < events.len() && is_stop_reason(
                #[trigger] run_control(c, max, handshake, events.take(i)),
                max,
                handshake,
                events[i],
            ),
    decreases events.len(),
{
    let next = control_step(c, max, handshake, events[0]);
    assert(events.take(0) =~= Seq::<SessionEvent>::empty());
    if next.phase == Phase::Stopped {
        assert(is_stop_reason(run_control(c, max, handshake, events.take(0)), max, handshake, events[0]));
    } else {
        lemma_stops_only_for_a_reason(next, max, handshake, events.drop_first());
        let j = choose|j: int|
            0 <= j < events.drop_first().len() && is_stop_reason(
                #[trigger] run_control(next, max, handshake, events.drop_first().take(j)),
                max,
                handshake,
                events.drop_first()[j],
            );
        lemma_run_prefix(c, max, handshake, events, j);
        assert(is_stop_reason(run_control(c, max, handshake, events.take(j + 1)), max, handshake, events[j + 1]));
    }
}

/// The control state after `n` rounds of a connection attempt that fails.
pub open spec fn failed_rounds(c: Control, max: u32, handshake: bool, n: nat) -> Control
    decreases n,
{
    if n == 0 {
        c
    } else {
        let before = failed_rounds(c, max, handshake, (n - 1) as nat);
        control_step(
            control_step(before, max, handshake, SessionEvent::Attempt),
            max,
            handshake,
            SessionEvent::ConnectFailed,
        )
    }
}

/// From a fresh or just-connected session (no failure yet), `n` failed attempts
/// in a row, `n` at most one more than the configured number, leave the session
/// waiting to reconnect with a count of `n`; the next attempt is refused, and
/// the session ends, exactly when `n` is one more than the configured number.
/// (With the largest `u32` as the number the count saturates and the session
/// never gives up, so that number is left out.)
pub proof fn lemma_gives_up_after_max_failures(max: u32, n: nat)
    requires
        max < u32::MAX,
        n <= max + 1,
    ensures
        failed_rounds(Control { phase: Phase::Disconnected, attempt: 0 }, max, true, n) == (Control {
            phase: Phase::Disconnected,
            attempt: n as u32,
        }),
        control_step(
            failed_rounds(Control { phase: Phase::Disconnected, attempt: 0 }, max, true, n),
            max,
            true,
            SessionEvent::Attempt,
        ).phase == Phase::Stopped <==> n == max + 1,
    decreases n,
{
    if n > 0 {
        lemma_gives_up_after_max_failures(max, (n - 1) as nat);
    }
}

/// Unsubscribing from a topic that a subscription just added restores the
/// active topics as they were.
pub proof fn lemma_unsubscribe_undoes_subscribe(active: Set<Seq<char>>, topic: Seq<char>)
    requires
        !active.contains(topic),
    ensures
        active.insert(topic).remove(topic) == active,
{
    assert(active.insert(topic).remove(topic) =~= active);
}

/// Subscribing twice to a topic is subscribing once.
pub proof fn lemma_subscribe_idempotent(active: Set<Seq<char>>, topic: Seq<char>)
    ensures
        active.insert(topic).insert(topic) == active.insert(topic),
{
    assert(active.insert(topic).insert(topic) =~= active.insert(topic));
}

/// The active topics after the commands `events`, from none.
pub open spec fn active_topics(events: Seq<TopicEvent>) -> Set<Seq<char>>
    decreases events.len(),
{
    if events.len() == 0 {
        Set::empty()
    } else {
        topic_step(active_topics(events.drop_last()), events.last())
    }
}

/// Whether `e` is a subscription or an unsubscription for `topic`.
pub open spec fn names_topic(e: TopicEvent, topic: Seq<char>) -> bool {
    ||| e matches TopicEvent::Subscribe(t) && t == topic
    ||| e matches TopicEvent::Unsubscribe(t) && t == topic
}

/// Whether the latest command in `events` that names `topic` subscribes to it.
pub open spec fn last_command_subscribes(events: Seq<TopicEvent>, topic: Seq<char>) -> bool {
    exists|i: int|
        #![trigger events[i]]
        0 <= i < events.len() && events[i] == TopicEvent::Subscribe(topic) && forall|j: int|
            i < j < events.len() ==> !names_topic(#[trigger] events[j], topic)
}

/// One more command moves the active topics by one step: a session whose topics
/// are `active_topics(events)` has, after `on_command`, the topics of the longer
/// run.
pub proof fn lemma_active_topics_step(events: Seq<TopicEvent>, e: TopicEvent)
    ensures
        active_topics(events.push(e)) == topic_step(active_topics(events), e),
{
    assert(events.push(e).drop_last() =~= events);
}

/// The topics that are active, and so are subscribed to again on every
/// reconnect, are exactly those whose latest subscribe or unsubscribe command
/// was a subscribe. A subscription whose request could not be written stays
/// active, an unsubscribed topic does not come back, and raw requests change
/// nothing. (`on_command` moves the topics by `topic_step`, every other step of a
/// session keeps them, and `on_connected` returns them.)
pub proof fn lemma_active_topics_follow_last_command(events: Seq<TopicEvent>, topic: Seq<char>)
    ensures
        active_topics(events).contains(topic) <==> last_command_subscribes(events, topic),
    decreases events.len(),
{
    if events.len() > 0 {
        let n = events.len() - 1;
        let prefix = events.drop_last();
        let e = events.last();
        lemma_active_topics_follow_last_command(prefix, topic);
        if names_topic(e, topic) {
            if e is Subscribe {
                assert(events[n] == TopicEvent::Subscribe(topic));
            } else {
                if last_command_subscribes(events, topic) {
                    let i = choose|i: int|
                        #![trigger events[i]]
                        0 <= i < events.len() && events[i] == TopicEvent::Subscribe(topic)
                            && forall|j: int|
                            i < j < events.len() ==> !names_topic(#[trigger] events[j], topic);
                    assert(i != n);
                    assert(!names_topic(events[n], topic));
                }
            }
        } else {
            assert(active_topics(events) =~= topic_step(active_topics(prefix), e));
            assert(topic_step(active_topics(prefix), e).contains(topic) == active_topics(prefix).contains(topic));
            if last_command_subscribes(prefix, topic) {
                let i = choose|i: int|
                    #![trigger prefix[i]]
                    0 <= i < prefix.len() && prefix[i] == TopicEvent::Subscribe(topic)
                        && forall|j: int| i < j < prefix.len() ==> !names_topic(#[trigger] prefix[j], topic);
                assert(events[i] == TopicEvent::Subscribe(topic));
                assert forall|j: int| i < j < events.len() implies !names_topic(#[trigger] events[j], topic) by {
                    if j < n {
                        assert(events[j] == prefix[j]);
                    }
                }
            }
            if last_command_subscribes(events, topic) {
                let i = choose|i: int|
                    #![trigger events[i]]
                    0 <= i < events.len() && events[i] == TopicEvent::Subscribe(topic)
                        && forall|j: int| i < j < events.len() ==> !names_topic(#[trigger] events[j], topic);
                assert(i != n);
                assert(prefix[i] == TopicEvent::Subscribe(topic));
                assert forall|j: int| i < j < prefix.len() implies !names_topic(#[trigger] prefix[j], topic) by {
                    assert(prefix[j] == events[j]);
                }
            }
        }
    }
}

/// The value that the name of a built-in topic carries, and which kind it is.
pub open spec fn topic_parts(topic: WsTopic) -> (int, Seq<char>) {
    match topic {
        WsTopic::PredictOrderbook { market_id } => (0, market_id@),
        WsTopic::AssetPriceUpdate { price_feed_id } => (1, price_feed_id@),
        WsTopic::PredictWalletEvents { jwt } => (2, jwt@),
        WsTopic::Custom(raw) => (3, raw@),
    }
}

/// Two built-in topics have the same name only when they are of the same kind
/// and carry the same value.
pub proof fn lemma_topic_names_distinct(a: WsTopic, b: WsTopic)
    requires
        !(a is Custom),
        !(b is Custom),
        a.spec_topic_string() == b.spec_topic_string(),
    ensures
        topic_parts(a) == topic_parts(b),
{
    reveal_strlit("predictOrderbook/");
    reveal_strlit("assetPriceUpdate/");
    reveal_strlit("predictWalletEvents/");
    let sa = a.spec_topic_string();
    let sb = b.spec_topic_string();
    let (ka, va) = topic_parts(a);
    let (kb, vb) = topic_parts(b);
    let pa = sa.subrange(0, sa.len() - va.len());
    if ka != kb {
        if ka == 1 || kb == 1 {
            assert(sa[0] != sb[0]);
        } else {
            assert(sa[7] != sb[7]);
        }
    } else {
        let plen: int = sa.len() - va.len();
        assert(sb.len() - vb.len() == plen);
        assert(va =~= sa.subrange(plen, sa.len() as int));
        assert(vb =~= sb.subrange(plen, sb.len() as int));
    }
}

} // verus!
