//! One event-subscription session: the welcome handshake, topic registration,
//! keepalive and frame decoding, as a state machine driven by the events of
//! its socket and of the subscription-create calls.

use vstd::prelude::*;

use crate::eventsub::{
    frame_event, frame_kind, frame_subtype, metadata_decodes, notification_read_from,
    decode_frame, text_is, welcome_decodes, DecodedFrame, FrameKind, MessageMetadata,
    NotificationType, SessionWelcome, SessionWelcomeSession,
};
use crate::helix::EventSubCreate;
use crate::json::{member, text_member, get_member, JsonValue};

verus! {

#[derive(PartialEq, Eq, Structural, Clone, Copy, Debug)]
pub enum SessionPhase {
    Connecting,
    AwaitingWelcome,
    Subscribing,
    Streaming,
    /// Terminal: a new session is needed to go on.
    Closed,
}

/// Why a session closed.
#[derive(PartialEq, Eq, Structural, Clone, Copy, Debug)]
pub enum SessionError {
    /// The socket could not be opened, read or written, or it ended.
    Transport,
    /// A frame broke the protocol: not JSON, no welcome first, or a schema violation.
    Protocol,
    /// A subscription-create call was refused.
    Subscription,
}

/// What happened on the socket or to the last subscription-create call.
pub enum SessionEvent {
    Connected,
    ConnectFailed,
    /// A text frame, decoded as JSON; `None` when it is not JSON.
    Text(Option<JsonValue>),
    /// A transport-level ping.
    Ping,
    /// Any other frame: pong, binary or close.
    OtherFrame,
    /// The socket reported the end of the stream.
    Ended,
    ReadFailed,
    WriteFailed,
    /// The outcome of the last subscription-create call.
    Subscribed(bool),
    /// The keepalive timer fired.
    KeepaliveTick,
}

/// What the session asks of its driver.
pub enum SessionAction {
    Idle,
    /// Call the subscription-create endpoint with this body.
    Subscribe(EventSubCreate),
    SendPong,
    SendPing,
    /// Hand this notification downstream.
    Deliver(NotificationType),
    /// The session has closed for this reason.
    Fail(SessionError),
}

pub struct EventSubSession {
    pub phase: SessionPhase,
    /// The `(type, version)` pairs to subscribe to, in order.
    pub topics: Vec<(String, String)>,
    pub broadcaster_id: String,
    /// The session named by the welcome frame.
    pub welcome: Option<SessionWelcomeSession>,
    /// The topic whose subscription-create call is outstanding.
    pub next_topic: usize,
    /// Whether any frame arrived since the keepalive timer last fired.
    pub heard_since_tick: bool,
    pub error: Option<SessionError>,
}

pub open spec fn is_open(p: SessionPhase) -> bool {
    p == SessionPhase::AwaitingWelcome || p == SessionPhase::Subscribing || p == SessionPhase::Streaming
}

/// `v` is a `session_welcome` frame whose payload names a session.
pub open spec fn welcome_frame(v: JsonValue) -> bool {
    match (member(v, "metadata"@), member(v, "payload"@)) {
        (Some(m), Some(p)) => {
            &&& metadata_decodes(m)
            &&& text_member(m, "message_type"@) == Some("session_welcome"@)
            &&& welcome_decodes(p)
        },
        _ => false,
    }
}

/// The payload of frame `v`.
pub open spec fn frame_payload(v: JsonValue) -> JsonValue {
    match member(v, "payload"@) {
        Some(p) => p,
        None => JsonValue::Null,
    }
}

/// The session id that welcome frame `v` carries.
pub open spec fn welcome_session_id(v: JsonValue) -> Option<Seq<char>> {
    match member(frame_payload(v), "session"@) {
        Some(s) => text_member(s, "id"@),
        None => None,
    }
}

/// Reads a `session_welcome` frame.
pub fn read_welcome(v: &JsonValue) -> (r: Option<SessionWelcome>)
    ensures
        r is Some <==> welcome_frame(*v),
        r matches Some(w) ==> w.read_from(frame_payload(*v)),
{
    let (m, p) = match (get_member(v, "metadata"), get_member(v, "payload")) {
        (Some(m), Some(p)) => (m, p),
        _ => return None,
    };
    let meta = match MessageMetadata::from_json(m) {
        Some(meta) => meta,
        None => return None,
    };
    if !text_is(&meta.message_type, "session_welcome") {
        return None;
    }
    SessionWelcome::from_json(p)
}

impl EventSubSession {
    /// `a` is the subscription-create call for topic `k` of `s`, on the session of its welcome.
    pub open spec fn subscribes(self, a: SessionAction, k: int) -> bool {
        &&& 0 <= k < self.topics@.len()
        &&& self.welcome is Some
        &&& a matches SessionAction::Subscribe(c) && c.requests(
            self.topics@[k].0@,
            self.topics@[k].1@,
            self.broadcaster_id@,
            self.welcome->0.id@,
        )
    }

    pub open spec fn closed_by(self, t: Self, a: SessionAction, err: SessionError) -> bool {
        &&& t == (EventSubSession { phase: SessionPhase::Closed, error: Some(err), ..self })
        &&& a == SessionAction::Fail(err)
    }

    pub open spec fn heard(self) -> Self {
        EventSubSession { heard_since_tick: true, ..self }
    }

    /// One step once the welcome has been taken: frames, keepalive and socket failures.
    pub open spec fn welcomed_step(self, e: SessionEvent, t: Self, a: SessionAction) -> bool {
        match e {
            SessionEvent::Text(None) => self.closed_by(t, a, SessionError::Protocol),
            SessionEvent::Text(Some(j)) => match frame_kind(j) {
                FrameKind::Malformed => self.closed_by(t, a, SessionError::Protocol),
                FrameKind::Ignored => t == self.heard() && a is Idle,
                FrameKind::Notification => {
                    &&& t == self.heard()
                    &&& a matches SessionAction::Deliver(n) && frame_subtype(j) matches Some(st)
                        && frame_event(j) matches Some(ev) && notification_read_from(n, st, ev)
                },
            },
            SessionEvent::Ping => t == self.heard() && a is SendPong,
            SessionEvent::OtherFrame => t == self.heard() && a is Idle,
            SessionEvent::Ended | SessionEvent::ReadFailed | SessionEvent::WriteFailed => {
                self.closed_by(t, a, SessionError::Transport)
            },
            SessionEvent::KeepaliveTick => {
                &&& t == (EventSubSession { heard_since_tick: false, ..self })
                &&& if self.heard_since_tick { a is Idle } else { a is SendPing }
            },
            SessionEvent::Subscribed(ok) => {
                if self.phase != SessionPhase::Subscribing {
                    t == self && a is Idle
                } else if !ok {
                    self.closed_by(t, a, SessionError::Subscription)
                } else if self.welcome is None {
                    self.closed_by(t, a, SessionError::Protocol)
                } else if self.next_topic + 1 < self.topics@.len() {
                    &&& t == (EventSubSession { next_topic: (self.next_topic + 1) as usize, ..self })
                    &&& t.subscribes(a, t.next_topic as int)
                } else {
                    t == (EventSubSession { phase: SessionPhase::Streaming, ..self }) && a is Idle
                }
            },
            SessionEvent::Connected | SessionEvent::ConnectFailed => t == self && a is Idle,
        }
    }

    /// One step while waiting for the welcome frame.
    pub open spec fn welcome_step(self, e: SessionEvent, t: Self, a: SessionAction) -> bool {
        match e {
            SessionEvent::Text(None) => self.closed_by(t, a, SessionError::Protocol),
            SessionEvent::Text(Some(j)) => {
                if welcome_frame(j) {
                    &&& t.welcome matches Some(w) && member(frame_payload(j), "session"@) matches Some(sj)
                        && w.read_from(sj)
                    &&& t == (EventSubSession {
                        phase: t.phase,
                        welcome: t.welcome,
                        next_topic: 0,
                        heard_since_tick: true,
                        ..self
                    })
                    &&& if self.topics@.len() == 0 {
                        t.phase == SessionPhase::Streaming && a is Idle
                    } else {
                        t.phase == SessionPhase::Subscribing && t.subscribes(a, 0)
                    }
                } else {
                    self.closed_by(t, a, SessionError::Protocol)
                }
            },
            SessionEvent::Ping => t == self.heard() && a is SendPong,
            SessionEvent::OtherFrame => t == self.heard() && a is Idle,
            SessionEvent::Ended | SessionEvent::ReadFailed | SessionEvent::WriteFailed => {
                self.closed_by(t, a, SessionError::Transport)
            },
            _ => t == self && a is Idle,
        }
    }

    /// The session's transition relation: from `self` on event `e` to `t`, asking `a`.
    pub open spec fn step_spec(self, e: SessionEvent, t: Self, a: SessionAction) -> bool {
        match self.phase {
            SessionPhase::Connecting => match e {
                SessionEvent::Connected => {
                    t == (EventSubSession { phase: SessionPhase::AwaitingWelcome, ..self }) && a is Idle
                },
                SessionEvent::ConnectFailed => self.closed_by(t, a, SessionError::Transport),
                _ => t == self && a is Idle,
            },
            SessionPhase::AwaitingWelcome => self.welcome_step(e, t, a),
            SessionPhase::Subscribing | SessionPhase::Streaming => self.welcomed_step(e, t, a),
            SessionPhase::Closed => t == self && a is Idle,
        }
    }

    /// A session that will subscribe to `topics` for `broadcaster_id` once connected.
    pub fn new(topics: Vec<(String, String)>, broadcaster_id: String) -> (r: EventSubSession)
        ensures
            r.phase == SessionPhase::Connecting,
            r.topics == topics,
            r.broadcaster_id == broadcaster_id,
            r.welcome is None,
            r.next_topic == 0,
            !r.heard_since_tick,
            r.error is None,
    {
        EventSubSession {
            phase: SessionPhase::Connecting,
            topics,
            broadcaster_id,
            welcome: None,
            next_topic: 0,
            heard_since_tick: false,
            error: None,
        }
    }

    fn close(&mut self, err: SessionError) -> (a: SessionAction)
        ensures
            old(self).closed_by(*final(self), a, err),
    {
        self.phase = SessionPhase::Closed;
        self.error = Some(err);
        SessionAction::Fail(err)
    }

    fn request_for(&self, k: usize) -> (a: SessionAction)
        requires
            k < self.topics@.len(),
            self.welcome is Some,
        ensures
            self.subscribes(a, k as int),
    {
        let w = self.welcome.as_ref().unwrap();
        SessionAction::Subscribe(
            EventSubCreate::for_websocket(&self.topics[k].0, &self.topics[k].1, &self.broadcaster_id, &w.id),
        )
    }

    fn take_welcome(&mut self, j: &JsonValue) -> (a: SessionAction)
        requires
            old(self).phase == SessionPhase::AwaitingWelcome,
        ensures
            old(self).welcome_step(SessionEvent::Text(Some(*j)), *final(self), a),
    {
        match read_welcome(j) {
            Some(w) => {
                self.welcome = Some(w.session);
                self.next_topic = 0;
                self.heard_since_tick = true;
                if self.topics.len() == 0 {
                    self.phase = SessionPhase::Streaming;
                    SessionAction::Idle
                } else {
                    self.phase = SessionPhase::Subscribing;
                    self.request_for(0)
                }
            },
            None => self.close(SessionError::Protocol),
        }
    }

    fn take_frame(&mut self, j: &JsonValue) -> (a: SessionAction)
        requires
            old(self).phase == SessionPhase::Subscribing || old(self).phase == SessionPhase::Streaming,
        ensures
            old(self).welcomed_step(SessionEvent::Text(Some(*j)), *final(self), a),
    {
        match decode_frame(j) {
            DecodedFrame::Malformed => self.close(SessionError::Protocol),
            DecodedFrame::Ignored => {
                self.heard_since_tick = true;
                SessionAction::Idle
            },
            DecodedFrame::Notification(n) => {
                self.heard_since_tick = true;
                SessionAction::Deliver(n)
            },
        }
    }

    fn take_subscribed(&mut self, ok: bool) -> (a: SessionAction)
        requires
            old(self).phase == SessionPhase::Subscribing,
        ensures
            old(self).welcomed_step(SessionEvent::Subscribed(ok), *final(self), a),
    {
        if !ok {
            return self.close(SessionError::Subscription);
        }
        if self.welcome.is_none() {
            return self.close(SessionError::Protocol);
        }
        if self.next_topic < self.topics.len() && self.topics.len() - self.next_topic > 1 {
            self.next_topic = self.next_topic + 1;
            self.request_for(self.next_topic)
        } else {
            self.phase = SessionPhase::Streaming;
            SessionAction::Idle
        }
    }

    /// Advances the session by one event and says what to do next.
    pub fn step(&mut self, e: SessionEvent) -> (a: SessionAction)
        ensures
            old(self).step_spec(e, *final(self), a),
    {
        match self.phase {
            SessionPhase::Closed => SessionAction::Idle,
            SessionPhase::Connecting => match e {
                SessionEvent::Connected => {
                    self.phase = SessionPhase::AwaitingWelcome;
                    SessionAction::Idle
                },
                SessionEvent::ConnectFailed => self.close(SessionError::Transport),
                _ => SessionAction::Idle,
            },
            SessionPhase::AwaitingWelcome => match e {
                SessionEvent::Text(None) => self.close(SessionError::Protocol),
                SessionEvent::Text(Some(j)) => self.take_welcome(&j),
                SessionEvent::Ping => {
                    self.heard_since_tick = true;
                    SessionAction::SendPong
                },
                SessionEvent::OtherFrame => {
                    self.heard_since_tick = true;
                    SessionAction::Idle
                },
                SessionEvent::Ended | SessionEvent::ReadFailed | SessionEvent::WriteFailed => {
                    self.close(SessionError::Transport)
                },
                _ => SessionAction::Idle,
            },
            SessionPhase::Subscribing | SessionPhase::Streaming => match e {
                SessionEvent::Text(None) => self.close(SessionError::Protocol),
                SessionEvent::Text(Some(j)) => self.take_frame(&j),
                SessionEvent::Ping => {
                    self.heard_since_tick = true;
                    SessionAction::SendPong
                },
                SessionEvent::OtherFrame => {
                    self.heard_since_tick = true;
                    SessionAction::Idle
                },
                SessionEvent::Ended | SessionEvent::ReadFailed | SessionEvent::WriteFailed => {
                    self.close(SessionError::Transport)
                },
                SessionEvent::KeepaliveTick => {
                    let heard = self.heard_since_tick;
                    self.heard_since_tick = false;
                    if heard {
                        SessionAction::Idle
                    } else {
                        SessionAction::SendPing
                    }
                },
                SessionEvent::Subscribed(ok) => {
                    if self.phase == SessionPhase::Subscribing {
                        self.take_subscribed(ok)
                    } else {
                        SessionAction::Idle
                    }
                },
                SessionEvent::Connected | SessionEvent::ConnectFailed => SessionAction::Idle,
            },
        }
    }
}


/// `states`, `events` and `actions` record a run of the session: step `i`
/// goes from `states[i]` on `events[i]` to `states[i + 1]`, asking `actions[i]`.
pub open spec fn is_run(states: Seq<EventSubSession>, events: Seq<SessionEvent>, actions: Seq<SessionAction>) -> bool {
    &&& states.len() == events.len() + 1
    &&& actions.len() == events.len()
    &&& forall|i: int| 0 <= i < events.len() ==> #[trigger] states[i].step_spec(events[i], states[i + 1], actions[i])
}

/// A text frame that is not JSON, or that breaks the envelope or its type's schema.
pub open spec fn malformed_text(e: SessionEvent) -> bool {
    match e {
        SessionEvent::Text(None) => true,
        SessionEvent::Text(Some(j)) => frame_kind(j) == FrameKind::Malformed,
        _ => false,
    }
}

proof fn lemma_run_step(states: Seq<EventSubSession>, events: Seq<SessionEvent>, actions: Seq<SessionAction>, i: int)
    requires
        is_run(states, events, actions),
        0 <= i < events.len(),
    ensures
        states[i].step_spec(events[i], states[i + 1], actions[i]),
{
}

/// Pings received on an open session are each answered by exactly one pong,
/// none of them surfaces as a notification, and the phase stays as it was.
pub proof fn lemma_pings_answered(states: Seq<EventSubSession>, events: Seq<SessionEvent>, actions: Seq<SessionAction>)
    requires
        is_run(states, events, actions),
        is_open(states[0].phase),
        forall|i: int| 0 <= i < events.len() ==> #[trigger] events[i] is Ping,
    ensures
        forall|i: int| 0 <= i < actions.len() ==> #[trigger] actions[i] is SendPong,
        forall|i: int| 0 <= i < states.len() ==> #[trigger] states[i].phase == states[0].phase,
    decreases events.len(),
{
    if events.len() > 0 {
        let n = events.len() - 1;
        lemma_pings_answered(states.take(n + 1), events.take(n), actions.take(n));
        assert(events[n] is Ping);
        assert(states.take(n + 1)[n] == states[n] && states.take(n + 1)[0] == states[0]);
        assert(states[n].phase == states[0].phase);
        lemma_run_step(states, events, actions, n);
        assert forall|i: int| 0 <= i < states.len() implies #[trigger] states[i].phase == states[0].phase by {
            if i < n + 1 {
                assert(states.take(n + 1)[i] == states[i]);
            }
        }
        assert forall|i: int| 0 <= i < actions.len() implies #[trigger] actions[i] is SendPong by {
            if i < n {
                assert(actions.take(n)[i] == actions[i]);
            }
        }
    }
}

/// A malformed text frame on an open session ends it at once: every later
/// state is closed and no step delivers a notification.
pub proof fn lemma_malformed_frame_ends_stream(
    states: Seq<EventSubSession>,
    events: Seq<SessionEvent>,
    actions: Seq<SessionAction>,
)
    requires
        is_run(states, events, actions),
        events.len() > 0,
        is_open(states[0].phase),
        malformed_text(events[0]),
    ensures
        forall|i: int| 1 <= i < states.len() ==> #[trigger] states[i].phase == SessionPhase::Closed,
        forall|i: int| 0 <= i < actions.len() ==> !(#[trigger] actions[i] is Deliver),
    decreases events.len(),
{
    lemma_run_step(states, events, actions, 0);
    if let SessionEvent::Text(Some(j)) = events[0] {
        if states[0].phase == SessionPhase::AwaitingWelcome && welcome_frame(j) {
            reveal_strlit("notification");
            reveal_strlit("session_welcome");
            assert("notification"@ != "session_welcome"@) by {
                assert("notification"@.len() != "session_welcome"@.len());
            }
        }
    }
    assert(states[1].phase == SessionPhase::Closed);
    lemma_closed_stays_closed(states, events, actions, events.len() as int);
}

proof fn lemma_closed_stays_closed(
    states: Seq<EventSubSession>,
    events: Seq<SessionEvent>,
    actions: Seq<SessionAction>,
    n: int,
)
    requires
        is_run(states, events, actions),
        1 <= n <= events.len(),
        states[1].phase == SessionPhase::Closed,
        !(actions[0] is Deliver),
    ensures
        forall|i: int| 1 <= i <= n ==> #[trigger] states[i].phase == SessionPhase::Closed,
        forall|i: int| 0 <= i < n ==> !(#[trigger] actions[i] is Deliver),
    decreases n,
{
    if n > 1 {
        lemma_closed_stays_closed(states, events, actions, n - 1);
        lemma_run_step(states, events, actions, n - 1);
    }
}

/// After a valid welcome frame, every subscription-create call of the run
/// carries the session id that the frame named.
pub proof fn lemma_subscriptions_use_welcome_session(
    states: Seq<EventSubSession>,
    events: Seq<SessionEvent>,
    actions: Seq<SessionAction>,
    j: JsonValue,
)
    requires
        is_run(states, events, actions),
        events.len() > 0,
        states[0].phase == SessionPhase::AwaitingWelcome,
        events[0] == SessionEvent::Text(Some(j)),
        welcome_frame(j),
    ensures
        forall|i: int| 0 <= i < actions.len() ==> (#[trigger] actions[i] matches SessionAction::Subscribe(c)
            ==> c.transport.session_id matches Some(sid) && welcome_session_id(j) == Some(sid@)),
{
    lemma_welcome_kept(states, events, actions, j, events.len() as int);
    assert forall|i: int| 0 <= i < actions.len() implies (#[trigger] actions[i] matches SessionAction::Subscribe(c)
        ==> c.transport.session_id matches Some(sid) && welcome_session_id(j) == Some(sid@)) by {
        lemma_run_step(states, events, actions, i);
    }
}

proof fn lemma_welcome_kept(
    states: Seq<EventSubSession>,
    events: Seq<SessionEvent>,
    actions: Seq<SessionAction>,
    j: JsonValue,
    n: int,
)
    requires
        is_run(states, events, actions),
        1 <= n <= events.len(),
        states[0].phase == SessionPhase::AwaitingWelcome,
        events[0] == SessionEvent::Text(Some(j)),
        welcome_frame(j),
    ensures
        forall|i: int| 1 <= i <= n ==> (#[trigger] states[i].welcome matches Some(w)
            && welcome_session_id(j) == Some(w.id@) && states[i].phase != SessionPhase::AwaitingWelcome
            && states[i].phase != SessionPhase::Connecting),
    decreases n,
{
    lemma_run_step(states, events, actions, n - 1);
    if n > 1 {
        lemma_welcome_kept(states, events, actions, j, n - 1);
    }
}

} // verus!
