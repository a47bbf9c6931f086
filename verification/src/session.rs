//! The decisions of a websocket connection that keeps itself open: which topics
//! are active, what each command and frame leads to, and when and after what
//! pause to reconnect. The transport performs the actions and reports events.
use vstd::prelude::*;
use vstd::arithmetic::power2::{pow2, lemma2_to64, lemma_pow2_strictly_increases};
use vstd::bits::lemma_u64_shl_is_mul;
use crate::trusted::{duration_as_nanos, duration_nanos};
use crate::websocket::{
    handshake_ok, is_handshake_for, PredictWebSocketConfig, WsCommand, WsMethod, WsRequest,
    WsServerMessage,
};
use tokio_tungstenite::tungstenite::http::Request;

verus! {

/// The exponent of the pause grows by one per failure up to this cap.
pub const MAX_BACKOFF_EXPONENT: u32 = 10;

/// The pause after the first failure, in milliseconds, before doubling.
pub const BACKOFF_UNIT_MILLIS: u64 = 250;

/// The exponent of the pause after `attempt` failures in a row.
pub open spec fn backoff_exponent(attempt: u32) -> nat {
    if attempt < MAX_BACKOFF_EXPONENT {
        attempt as nat
    } else {
        MAX_BACKOFF_EXPONENT as nat
    }
}

/// The uncapped pause after `attempt` failures in a row, in nanoseconds:
/// 250 ms times two to the exponent.
pub open spec fn backoff_nanos(attempt: u32) -> nat {
    (pow2(backoff_exponent(attempt)) * BACKOFF_UNIT_MILLIS * 1_000_000) as nat
}

/// The pause before the next attempt, in nanoseconds: the backoff, but never
/// longer than the configured maximum.
pub open spec fn spec_reconnect_delay_nanos(attempt: u32, max_delay_nanos: u128) -> nat {
    if (max_delay_nanos as nat) < backoff_nanos(attempt) {
        max_delay_nanos as nat
    } else {
        backoff_nanos(attempt)
    }
}

/// The pause before the next connection attempt after `attempt` failures in a row.
pub fn reconnect_delay_nanos(attempt: u32, max_delay_nanos: u128) -> (delay: u64)
    ensures
        delay == spec_reconnect_delay_nanos(attempt, max_delay_nanos),
{
    let exp: u64 = if attempt < MAX_BACKOFF_EXPONENT {
        attempt as u64
    } else {
        MAX_BACKOFF_EXPONENT as u64
    };
    proof {
        lemma2_to64();
        if exp < 10 {
            lemma_pow2_strictly_increases(exp as nat, 10);
        }
        lemma_u64_shl_is_mul(1, exp);
    }
    let delay_ms: u64 = (1u64 << exp) * BACKOFF_UNIT_MILLIS;
    let backoff: u64 = delay_ms * 1_000_000;
    if max_delay_nanos < backoff as u128 {
        max_delay_nanos as u64
    } else {
        backoff
    }
}

/// The count of failures in a row after one more failure; it stops growing at
/// the largest `u32`.
pub open spec fn attempt_after_failure(attempt: u32) -> u32 {
    if attempt == u32::MAX {
        u32::MAX
    } else {
        (attempt + 1) as u32
    }
}

/// The names of a list of topics.
pub open spec fn topic_views(topics: Seq<String>) -> Seq<Seq<char>> {
    topics.map_values(|t: String| t@)
}

/// Whether `req` is a (un)subscription request with `method` for the one topic
/// `topic` under the request id `request_id`.
pub open spec fn is_topic_request(req: WsRequest, method: WsMethod, topic: Seq<char>, request_id: u64) -> bool {
    &&& req.method == method
    &&& req.request_id == Some(request_id)
    &&& req.params matches Some(p) && p@.len() == 1 && p@[0]@ == topic
    &&& req.data is None
}

/// A (un)subscription request for one topic.
fn topic_request(method: WsMethod, topic: String, request_id: u64) -> (req: WsRequest)
    ensures
        is_topic_request(req, method, topic@, request_id),
{
    let mut params: Vec<String> = Vec::new();
    params.push(topic);
    WsRequest { method, request_id: Some(request_id), params: Some(params), data: None }
}

/// The request that subscribes again to an active topic after a reconnect.
pub fn resubscribe_request(topic: String, request_id: u64) -> (req: WsRequest)
    ensures
        is_topic_request(req, WsMethod::Subscribe, topic@, request_id),
{
    topic_request(WsMethod::Subscribe, topic, request_id)
}

/// Whether `msg` is a heartbeat pushed by the server.
pub open spec fn is_heartbeat(msg: WsServerMessage) -> bool {
    msg matches WsServerMessage::Push { topic, .. } && topic@ == "heartbeat"@
}

/// The answer owed to a server message: a heartbeat is answered by a heartbeat
/// request that echoes its data, with no request id and no parameters; every
/// other message needs no answer.
pub fn heartbeat_reply(msg: &WsServerMessage) -> (reply: Option<WsRequest>)
    ensures
        reply is Some <==> is_heartbeat(*msg),
        reply matches Some(req) ==> {
            &&& req.method == WsMethod::Heartbeat
            &&& req.request_id is None
            &&& req.params is None
            &&& *msg matches WsServerMessage::Push { data, .. } && req.data == Some(data)
        },
{
    match msg {
        WsServerMessage::Push { topic, data } => {
            let heartbeat = String::from_str("heartbeat");
            if *topic == heartbeat {
                Some(
                    WsRequest {
                        method: WsMethod::Heartbeat,
                        request_id: None,
                        params: None,
                        data: Some(data.clone()),
                    },
                )
            } else {
                None
            }
        },
        WsServerMessage::Response { .. } => None,
    }
}

/// The kinds of websocket frame, and the end of the stream, as the transport sees them.
#[derive(Debug, Clone, Copy, PartialEq, Eq, Structural)]
pub enum IncomingFrame {
    Text,
    Binary,
    Ping,
    Pong,
    Close,
    Raw,
    Failed,
    Ended,
}

/// What a frame leads to.
#[derive(Debug, Clone, Copy, PartialEq, Eq, Structural)]
pub enum FrameAction {
    /// Parse the text as a server message and handle it.
    HandleText,
    /// Answer with a pong that carries the ping's payload.
    ReplyPong,
    /// Drop the connection and connect again.
    Reconnect,
    /// Nothing.
    Ignore,
}

/// The action a frame calls for.
pub open spec fn spec_frame_action(frame: IncomingFrame) -> FrameAction {
    match frame {
        IncomingFrame::Text => FrameAction::HandleText,
        IncomingFrame::Ping => FrameAction::ReplyPong,
        IncomingFrame::Close | IncomingFrame::Failed | IncomingFrame::Ended => FrameAction::Reconnect,
        IncomingFrame::Binary | IncomingFrame::Pong | IncomingFrame::Raw => FrameAction::Ignore,
    }
}

/// Why something was being sent when the sending failed.
#[derive(Debug, Clone, Copy, PartialEq, Eq, Structural)]
pub enum Outgoing {
    /// A request for a command of the handle.
    Command,
    /// A subscription renewed after a reconnect.
    Resubscribe,
    /// The answer to a heartbeat.
    Heartbeat,
    /// The answer to a ping.
    Pong,
}

/// What a failed send leads to.
#[derive(Debug, Clone, Copy, PartialEq, Eq, Structural)]
pub enum SendFailureAction {
    /// Drop the connection and connect again.
    Reconnect,
    /// Renew no further subscriptions on this connection.
    StopResubscribing,
    /// Go on as if it had been sent.
    Continue,
}

/// The action a failed send calls for.
pub open spec fn spec_send_failure_action(kind: Outgoing) -> SendFailureAction {
    match kind {
        Outgoing::Command | Outgoing::Pong => SendFailureAction::Reconnect,
        Outgoing::Resubscribe => SendFailureAction::StopResubscribing,
        Outgoing::Heartbeat => SendFailureAction::Continue,
    }
}

/// What a command of the handle leads to.
#[derive(Debug)]
pub enum CommandAction {
    /// Send this request.
    Send(WsRequest),
    /// Send a close frame and stop for good.
    Close,
}

/// Where a session stands.
#[derive(Debug, Clone, Copy, PartialEq, Eq, Structural)]
pub enum Phase {
    /// Between connections: the next step is an attempt to connect.
    Disconnected,
    /// A connection is open.
    Connected,
    /// Given up or closed, for good.
    Stopped,
}

/// The part of a session's state that decides when it connects and when it stops.
pub struct Control {
    pub phase: Phase,
    /// Failed connection attempts since the last success.
    pub attempt: u32,
}

/// What happens to a session, as far as connecting and stopping go.
pub enum SessionEvent {
    /// A connection attempt is about to be made.
    Attempt,
    /// The attempt failed.
    ConnectFailed,
    /// The attempt succeeded.
    Connected,
    /// A close command came, or every handle is gone.
    Close,
    /// The open connection was lost: a close frame, an error, the end of the
    /// stream, or a failed write that calls for reconnecting.
    LinkLost,
    /// Anything else: a command that sends, an ignored frame or failure.
    Quiet,
}

/// How an event moves the control state, for a session that gives up after
/// more than `max` failures in a row and whose handshake request can
/// (`handshake`) or cannot be built.
pub open spec fn control_step(c: Control, max: u32, handshake: bool, e: SessionEvent) -> Control {
    if c.phase == Phase::Stopped {
        c
    } else {
        match e {
            SessionEvent::Attempt => if c.attempt <= max && handshake {
                c
            } else {
                Control { phase: Phase::Stopped, attempt: c.attempt }
            },
            SessionEvent::ConnectFailed => Control {
                phase: Phase::Disconnected,
                attempt: attempt_after_failure(c.attempt),
            },
            SessionEvent::Connected => Control { phase: Phase::Connected, attempt: 0 },
            SessionEvent::Close => Control { phase: Phase::Stopped, attempt: c.attempt },
            SessionEvent::LinkLost => Control { phase: Phase::Disconnected, attempt: c.attempt },
            SessionEvent::Quiet => c,
        }
    }
}

/// What a command does to the set of active topics.
pub enum TopicEvent {
    Subscribe(Seq<char>),
    Unsubscribe(Seq<char>),
    /// A raw request, a close, or the loss of every handle: no change.
    Other,
}

/// The active topics after `e`.
pub open spec fn topic_step(active: Set<Seq<char>>, e: TopicEvent) -> Set<Seq<char>> {
    match e {
        TopicEvent::Subscribe(t) => active.insert(t),
        TopicEvent::Unsubscribe(t) => active.remove(t),
        TopicEvent::Other => active,
    }
}

/// What a command of the handle does to the active topics; a raw request does
/// nothing to them, whatever its method.
pub open spec fn command_topic_event(cmd: Option<WsCommand>) -> TopicEvent {
    match cmd {
        Some(WsCommand::Subscribe { topic, .. }) => TopicEvent::Subscribe(topic@),
        Some(WsCommand::Unsubscribe { topic, .. }) => TopicEvent::Unsubscribe(topic@),
        _ => TopicEvent::Other,
    }
}

/// The abstract state of a session.
pub struct WsSessionView {
    pub phase: Phase,
    /// Failed connection attempts since the last success.
    pub attempt: u32,
    /// The configuration the session connects with.
    pub config: PredictWebSocketConfig,
    /// The longest pause between attempts, in nanoseconds.
    pub max_delay_nanos: u128,
    /// The topics subscribed to and not since unsubscribed.
    pub subscriptions: Set<Seq<char>>,
}

impl WsSessionView {
    /// The control state.
    pub open spec fn control(self) -> Control {
        Control { phase: self.phase, attempt: self.attempt }
    }

    /// The control state after `e`.
    pub open spec fn after(self, e: SessionEvent) -> Control {
        control_step(self.control(), self.config.max_reconnect_attempts, handshake_ok(self.config), e)
    }

    /// Whether `other` has the same configuration and topics.
    pub open spec fn same_setup(self, other: WsSessionView) -> bool {
        &&& other.config == self.config
        &&& other.max_delay_nanos == self.max_delay_nanos
        &&& other.subscriptions == self.subscriptions
    }
}

/// Appending an element adds it to the set of elements.
proof fn lemma_push_to_set<A>(s: Seq<A>, x: A)
    ensures
        s.push(x).to_set() == s.to_set().insert(x),
{
    assert forall|t: A| #[trigger] s.push(x).contains(t) <==> s.to_set().insert(x).contains(t) by {
        if s.push(x).contains(t) {
            let k = choose|k: int| 0 <= k < s.push(x).len() && s.push(x)[k] == t;
            if k < s.len() {
                assert(s[k] == t);
            }
        }
        if s.contains(t) {
            let k = choose|k: int| 0 <= k < s.len() && s[k] == t;
            assert(s.push(x)[k] == t);
        }
        if t == x {
            assert(s.push(x)[s.len() as int] == t);
        }
    }
    assert(s.push(x).to_set() =~= s.to_set().insert(x));
}

/// Removing the element at `i` from a sequence without duplicates removes that
/// element from its set of elements.
proof fn lemma_remove_to_set<A>(s: Seq<A>, i: int)
    requires
        0 <= i < s.len(),
        s.no_duplicates(),
    ensures
        s.remove(i).to_set() == s.to_set().remove(s[i]),
        s.remove(i).no_duplicates(),
{
    s.remove_ensures(i);
    let r = s.remove(i);
    assert forall|t: A| #[trigger] r.contains(t) <==> s.to_set().remove(s[i]).contains(t) by {
        if r.contains(t) {
            let k = choose|k: int| 0 <= k < r.len() && r[k] == t;
            if k < i {
                assert(s[k] == t);
            } else {
                assert(s[k + 1] == t);
            }
        }
        if s.contains(t) && t != s[i] {
            let k = choose|k: int| 0 <= k < s.len() && s[k] == t;
            if k < i {
                assert(r[k] == t);
            } else {
                assert(r[k - 1] == t);
            }
        }
    }
    assert(r.to_set() =~= s.to_set().remove(s[i]));
    assert forall|a: int, b: int| 0 <= a < r.len() && 0 <= b < r.len() && a != b implies r[a] != r[b] by {
        let sa = if a < i { a } else { a + 1 };
        let sb = if b < i { b } else { b + 1 };
        assert(r[a] == s[sa] && r[b] == s[sb]);
    }
}

/// Appending a topic appends its name.
proof fn lemma_map_push(topics: Seq<String>, topic: String)
    ensures
        topic_views(topics.push(topic)) == topic_views(topics).push(topic@),
{
    assert(topic_views(topics.push(topic)) =~= topic_views(topics).push(topic@));
}

/// The state of a websocket connection that reconnects by itself.
pub struct WsSession {
    phase: Phase,
    attempt: u32,
    config: PredictWebSocketConfig,
    max_delay_nanos: u128,
    subscriptions: Vec<String>,
}

impl View for WsSession {
    type V = WsSessionView;

    closed spec fn view(&self) -> WsSessionView {
        WsSessionView {
            phase: self.phase,
            attempt: self.attempt,
            config: self.config,
            max_delay_nanos: self.max_delay_nanos,
            subscriptions: topic_views(self.subscriptions@).to_set(),
        }
    }
}

impl WsSession {
    /// No topic is held twice.
    #[verifier::type_invariant]
    spec fn distinct_topics(self) -> bool {
        topic_views(self.subscriptions@).no_duplicates()
    }

    /// A session for `config` that is about to connect, has not failed yet and
    /// holds no topic.
    pub fn for_config(config: PredictWebSocketConfig) -> (session: WsSession)
        ensures
            session@.phase == Phase::Disconnected,
            session@.attempt == 0,
            session@.config == config,
            session@.max_delay_nanos == duration_nanos(config.max_reconnect_delay),
            session@.subscriptions == Set::<Seq<char>>::empty(),
    {
        let max_delay_nanos = duration_as_nanos(&config.max_reconnect_delay);
        let session = WsSession {
            phase: Phase::Disconnected,
            attempt: 0,
            config,
            max_delay_nanos,
            subscriptions: Vec::new(),
        };
        assert(topic_views(session.subscriptions@).to_set() =~= Set::<Seq<char>>::empty());
        session
    }

    /// Whether the failures in a row are still within the configured number.
    pub fn may_connect(&self) -> (allowed: bool)
        ensures
            allowed == (self@.attempt <= self@.config.max_reconnect_attempts),
    {
        self.attempt <= self.config.max_reconnect_attempts
    }

    /// Whether a connection is open.
    pub fn is_connected(&self) -> (connected: bool)
        ensures
            connected == (self@.phase == Phase::Connected),
    {
        self.phase == Phase::Connected
    }

    /// Whether the session has ended for good.
    pub fn is_stopped(&self) -> (stopped: bool)
        ensures
            stopped == (self@.phase == Phase::Stopped),
    {
        self.phase == Phase::Stopped
    }

    /// The handshake request of the next connection attempt, or `None` when the
    /// session ends instead: it has already ended, more failures in a row than
    /// configured have happened, or the request cannot be built.
    pub fn next_attempt(&mut self) -> (request: Option<Request<()>>)
        ensures
            request is Some <==> (old(self)@.phase != Phase::Stopped && old(self)@.attempt
                <= old(self)@.config.max_reconnect_attempts && handshake_ok(old(self)@.config)),
            request matches Some(q) ==> is_handshake_for(old(self)@.config, q),
            final(self)@.control() == old(self)@.after(SessionEvent::Attempt),
            old(self)@.same_setup(final(self)@),
    {
        proof {
            use_type_invariant(&*self);
        }
        if self.phase == Phase::Stopped {
            return None;
        }
        if self.attempt > self.config.max_reconnect_attempts {
            self.phase = Phase::Stopped;
            return None;
        }
        match self.config.build_request() {
            Ok(request) => Some(request),
            Err(_) => {
                self.phase = Phase::Stopped;
                None
            },
        }
    }

    /// Records a failed connection attempt and returns the pause, in
    /// nanoseconds, before the next one.
    pub fn on_connect_failed(&mut self) -> (delay: u64)
        ensures
            final(self)@.control() == old(self)@.after(SessionEvent::ConnectFailed),
            old(self)@.same_setup(final(self)@),
            delay == spec_reconnect_delay_nanos(final(self)@.attempt, final(self)@.max_delay_nanos),
    {
        proof {
            use_type_invariant(&*self);
        }
        if self.phase != Phase::Stopped {
            self.phase = Phase::Disconnected;
            self.attempt = self.attempt.saturating_add(1);
        }
        reconnect_delay_nanos(self.attempt, self.max_delay_nanos)
    }

    /// Records a successful connection and returns the topics to subscribe to
    /// again: each active topic once.
    pub fn on_connected(&mut self) -> (topics: Vec<String>)
        ensures
            final(self)@.control() == old(self)@.after(SessionEvent::Connected),
            old(self)@.same_setup(final(self)@),
            topic_views(topics@).no_duplicates(),
            topic_views(topics@).to_set() == old(self)@.subscriptions,
    {
        proof {
            use_type_invariant(&*self);
        }
        if self.phase != Phase::Stopped {
            self.phase = Phase::Connected;
            self.attempt = 0;
        }
        let mut topics: Vec<String> = Vec::new();
        let n = self.subscriptions.len();
        for i in 0..n
            invariant
                n == self.subscriptions@.len(),
                topic_views(topics@) =~= topic_views(self.subscriptions@).take(i as int),
        {
            let topic = self.subscriptions[i].clone();
            proof {
                lemma_map_push(topics@, topic);
                assert(topic_views(self.subscriptions@).take(i + 1) =~= topic_views(
                    self.subscriptions@,
                ).take(i as int).push(topic@));
            }
            topics.push(topic);
        }
        assert(topic_views(self.subscriptions@).take(n as int) =~= topic_views(self.subscriptions@));
        topics
    }

    /// What a frame calls for: text is handled, a ping answered, and a close,
    /// an error or the end of the stream lose the connection; everything else is
    /// ignored.
    pub fn on_frame(&mut self, frame: IncomingFrame) -> (action: FrameAction)
        ensures
            action == spec_frame_action(frame),
            final(self)@.control() == old(self)@.after(
                if action == FrameAction::Reconnect {
                    SessionEvent::LinkLost
                } else {
                    SessionEvent::Quiet
                },
            ),
            old(self)@.same_setup(final(self)@),
    {
        let action = match frame {
            IncomingFrame::Text => FrameAction::HandleText,
            IncomingFrame::Ping => FrameAction::ReplyPong,
            IncomingFrame::Close | IncomingFrame::Failed | IncomingFrame::Ended => FrameAction::Reconnect,
            IncomingFrame::Binary | IncomingFrame::Pong | IncomingFrame::Raw => FrameAction::Ignore,
        };
        if action == FrameAction::Reconnect {
            self.lose_link();
        }
        action
    }

    /// What a failed send calls for: a failed command or pong loses the
    /// connection, a failed renewal ends the renewals, and a failed heartbeat
    /// answer is ignored.
    pub fn on_send_failure(&mut self, kind: Outgoing) -> (action: SendFailureAction)
        ensures
            action == spec_send_failure_action(kind),
            final(self)@.control() == old(self)@.after(
                if action == SendFailureAction::Reconnect {
                    SessionEvent::LinkLost
                } else {
                    SessionEvent::Quiet
                },
            ),
            old(self)@.same_setup(final(self)@),
    {
        let action = match kind {
            Outgoing::Command | Outgoing::Pong => SendFailureAction::Reconnect,
            Outgoing::Resubscribe => SendFailureAction::StopResubscribing,
            Outgoing::Heartbeat => SendFailureAction::Continue,
        };
        if action == SendFailureAction::Reconnect {
            self.lose_link();
        }
        action
    }

    /// The open connection is gone; the next step is a new attempt.
    fn lose_link(&mut self)
        ensures
            final(self)@.control() == old(self)@.after(SessionEvent::LinkLost),
            old(self)@.same_setup(final(self)@),
    {
        proof {
            use_type_invariant(&*self);
        }
        if self.phase != Phase::Stopped {
            self.phase = Phase::Disconnected;
        }
    }

    /// The index of `topic` among the active topics, if it is one.
    fn position(&self, topic: &String) -> (idx: Option<usize>)
        ensures
            idx is None <==> !topic_views(self.subscriptions@).contains(topic@),
            idx matches Some(i) ==> i < self.subscriptions@.len() && self.subscriptions@[i as int]@
                == topic@,
    {
        let n = self.subscriptions.len();
        for i in 0..n
            invariant
                n == self.subscriptions@.len(),
                forall|j: int| 0 <= j < i ==> self.subscriptions@[j]@ != topic@,
        {
            if self.subscriptions[i] == *topic {
                assert(topic_views(self.subscriptions@)[i as int] == topic@);
                return Some(i);
            }
        }
        proof {
            if topic_views(self.subscriptions@).contains(topic@) {
                let j = choose|j: int|
                    0 <= j < topic_views(self.subscriptions@).len()
                        && topic_views(self.subscriptions@)[j] == topic@;
                assert(self.subscriptions@[j]@ == topic@);
            }
        }
        None
    }

    /// Makes `topic` active.
    fn add_topic(&mut self, topic: &String)
        ensures
            final(self)@.phase == old(self)@.phase,
            final(self)@.attempt == old(self)@.attempt,
            final(self)@.config == old(self)@.config,
            final(self)@.max_delay_nanos == old(self)@.max_delay_nanos,
            final(self)@.subscriptions == old(self)@.subscriptions.insert(topic@),
    {
        proof {
            use_type_invariant(&*self);
        }
        match self.position(topic) {
            Some(i) => {
                assert(topic_views(self.subscriptions@)[i as int] == topic@);
                assert(topic_views(self.subscriptions@).to_set() =~= topic_views(
                    self.subscriptions@,
                ).to_set().insert(topic@));
            },
            None => {
                let ghost before = topic_views(self.subscriptions@);
                let mut topics: Vec<String> = Vec::new();
                std::mem::swap(&mut topics, &mut self.subscriptions);
                let added = topic.clone();
                proof {
                    lemma_map_push(topics@, added);
                    lemma_push_to_set(before, topic@);
                    assert forall|a: int, b: int|
                        0 <= a < before.push(topic@).len() && 0 <= b < before.push(topic@).len()
                            && a != b implies before.push(topic@)[a] != before.push(topic@)[b] by {
                        if a == before.len() {
                            assert(before.contains(before[b]));
                        } else if b == before.len() {
                            assert(before.contains(before[a]));
                        }
                    }
                }
                topics.push(added);
                self.subscriptions = topics;
            },
        }
    }

    /// Makes `topic` inactive.
    fn drop_topic(&mut self, topic: &String)
        ensures
            final(self)@.phase == old(self)@.phase,
            final(self)@.attempt == old(self)@.attempt,
            final(self)@.config == old(self)@.config,
            final(self)@.max_delay_nanos == old(self)@.max_delay_nanos,
            final(self)@.subscriptions == old(self)@.subscriptions.remove(topic@),
    {
        proof {
            use_type_invariant(&*self);
        }
        match self.position(topic) {
            None => {
                assert(topic_views(self.subscriptions@).to_set() =~= topic_views(
                    self.subscriptions@,
                ).to_set().remove(topic@));
            },
            Some(i) => {
                let ghost before = topic_views(self.subscriptions@);
                let mut topics: Vec<String> = Vec::new();
                std::mem::swap(&mut topics, &mut self.subscriptions);
                topics.remove(i);
                assert(topic_views(topics@) =~= before.remove(i as int));
                proof {
                    lemma_remove_to_set(before, i as int);
                }
                assert(topic_views(topics@).to_set() =~= before.to_set().remove(topic@));
                self.subscriptions = topics;
            },
        }
    }

    /// Handles a command of the handle (`None`: every handle is gone).
    /// Subscribing makes the topic active and unsubscribing inactive; each sends
    /// its request. A raw request is sent as it is. Closing, or the loss of all
    /// handles, ends the session for good.
    pub fn on_command(&mut self, cmd: Option<WsCommand>) -> (action: CommandAction)
        ensures
            final(self)@.config == old(self)@.config,
            final(self)@.max_delay_nanos == old(self)@.max_delay_nanos,
            final(self)@.subscriptions == topic_step(
                old(self)@.subscriptions,
                command_topic_event(cmd),
            ),
            match cmd {
                Some(WsCommand::Subscribe { topic, request_id }) => {
                    &&& final(self)@.control() == old(self)@.after(SessionEvent::Quiet)
                    &&& final(self)@.subscriptions == old(self)@.subscriptions.insert(topic@)
                    &&& action matches CommandAction::Send(req) && is_topic_request(
                        req,
                        WsMethod::Subscribe,
                        topic@,
                        request_id,
                    )
                },
                Some(WsCommand::Unsubscribe { topic, request_id }) => {
                    &&& final(self)@.control() == old(self)@.after(SessionEvent::Quiet)
                    &&& final(self)@.subscriptions == old(self)@.subscriptions.remove(topic@)
                    &&& action matches CommandAction::Send(req) && is_topic_request(
                        req,
                        WsMethod::Unsubscribe,
                        topic@,
                        request_id,
                    )
                },
                Some(WsCommand::Raw(raw)) => {
                    &&& final(self)@.control() == old(self)@.after(SessionEvent::Quiet)
                    &&& final(self)@.subscriptions == old(self)@.subscriptions
                    &&& action matches CommandAction::Send(req) && req == raw
                },
                _ => {
                    &&& final(self)@.control() == old(self)@.after(SessionEvent::Close)
                    &&& final(self)@.subscriptions == old(self)@.subscriptions
                    &&& action is Close
                },
            },
    {
        match cmd {
            Some(WsCommand::Subscribe { topic, request_id }) => {
                self.add_topic(&topic);
                CommandAction::Send(topic_request(WsMethod::Subscribe, topic, request_id))
            },
            Some(WsCommand::Unsubscribe { topic, request_id }) => {
                self.drop_topic(&topic);
                CommandAction::Send(topic_request(WsMethod::Unsubscribe, topic, request_id))
            },
            Some(WsCommand::Raw(req)) => CommandAction::Send(req),
            Some(WsCommand::Close) | None => {
                proof {
                    use_type_invariant(&*self);
                }
                self.phase = Phase::Stopped;
                CommandAction::Close
            },
        }
    }
}

} // verus!
