//! The life of one connection: upgrade, greeting, then a stream of frames,
//! each decoded and, when it names its type, published under two topics.
use vstd::prelude::*;
use crate::codec::{decode, handshake_message, handshake_text, json_accepts, json_string_member, type_key, Inbound};

verus! {

/// Where a connection stands.
#[derive(Clone, Copy, Debug, PartialEq, Eq, Structural)]
pub enum Phase {
    /// Waiting for the transport upgrade.
    Handshaking,
    /// Upgraded; the greeting is on its way.
    Greeting,
    /// Greeted; inbound frames are processed in order of arrival.
    Streaming,
    /// Finished; nothing more happens on it.
    Closed,
}

/// A frame received from the peer.
pub enum Frame {
    Text(String),
    Close,
    /// Binary, ping, pong and any other kind.
    Other,
}

/// What the transport reports to a connection.
pub enum Event {
    Upgraded,
    UpgradeFailed,
    GreetingSent,
    GreetingFailed,
    Received(Frame),
    ReceiveFailed,
    /// The peer's stream ended without a close frame.
    Ended,
}

/// A diagnostic for the log.
pub enum Notice {
    UpgradeFailed,
    GreetingFailed,
    DecodeFailed(serde_json::Error),
    ClosedByPeer,
    ReceiveFailed,
}

/// What the transport is to do after an event.
pub enum Action {
    Nothing,
    /// Send this text frame to the peer.
    Send(String),
    /// Publish the payload under each topic, in order; a failed publication
    /// does not hold back the next one.
    Publish(Vec<String>, serde_json::Value),
    Report(Notice),
}

/// The topic for messages of type `t`.
pub open spec fn topic_text(t: Seq<char>) -> Seq<char> {
    "ws:"@ + t
}

/// The topic that receives every published message.
pub open spec fn catch_all_text() -> Seq<char> {
    "ws:message"@
}

/// `topics` are the topic of type `t`, then the catch-all topic.
pub open spec fn names_topics(topics: Seq<String>, t: Seq<char>) -> bool {
    &&& topics.len() == 2
    &&& topics[0]@ == topic_text(t)
    &&& topics[1]@ == catch_all_text()
}

/// `a` is what a decoded frame `i` asks for.
pub open spec fn routed(i: Inbound, a: Action) -> bool {
    match i {
        Inbound::Malformed(e) => a == Action::Report(Notice::DecodeFailed(e)),
        Inbound::Untyped(_) => a is Nothing,
        Inbound::Typed(t, v) => match a {
            Action::Publish(ts, p) => p == v && names_topics(ts@, t@),
            _ => false,
        },
    }
}

/// `a` answers the text frame `s`: text that is not JSON is reported, a
/// document whose member `type` is a string is published under that type,
/// and any other document is dropped.
pub open spec fn frame_answered(s: Seq<char>, a: Action) -> bool {
    if !json_accepts(s) {
        a matches Action::Report(Notice::DecodeFailed(_))
    } else {
        match json_string_member(s, type_key()) {
            Some(t) => match a {
                Action::Publish(ts, _) => names_topics(ts@, t),
                _ => false,
            },
            None => a is Nothing,
        }
    }
}

/// The phase after event `e` in phase `p`.
pub open spec fn next_phase(p: Phase, e: Event) -> Phase {
    match p {
        Phase::Handshaking => match e {
            Event::Upgraded => Phase::Greeting,
            Event::UpgradeFailed => Phase::Closed,
            _ => Phase::Handshaking,
        },
        Phase::Greeting => match e {
            Event::GreetingSent => Phase::Streaming,
            Event::GreetingFailed => Phase::Closed,
            _ => Phase::Greeting,
        },
        Phase::Streaming => match e {
            Event::Received(Frame::Close) => Phase::Closed,
            Event::ReceiveFailed => Phase::Closed,
            Event::Ended => Phase::Closed,
            _ => Phase::Streaming,
        },
        Phase::Closed => Phase::Closed,
    }
}

/// `a` is the action owed for event `e` in phase `p`, on a server of
/// version `version`.
pub open spec fn answers(p: Phase, version: Seq<char>, e: Event, a: Action) -> bool {
    match p {
        Phase::Handshaking => match e {
            Event::Upgraded => match a {
                Action::Send(text) => exists|t: i64| text@ == handshake_text(version, t as int),
                _ => false,
            },
            Event::UpgradeFailed => a == Action::Report(Notice::UpgradeFailed),
            _ => a is Nothing,
        },
        Phase::Greeting => match e {
            Event::GreetingFailed => a == Action::Report(Notice::GreetingFailed),
            _ => a is Nothing,
        },
        Phase::Streaming => match e {
            Event::Received(Frame::Text(s)) => frame_answered(s@, a),
            Event::Received(Frame::Close) => a == Action::Report(Notice::ClosedByPeer),
            Event::ReceiveFailed => a == Action::Report(Notice::ReceiveFailed),
            _ => a is Nothing,
        },
        Phase::Closed => a is Nothing,
    }
}

/// The phase reached from `p` through `events`, in order.
pub open spec fn phase_after(p: Phase, events: Seq<Event>) -> Phase
    decreases events.len(),
{
    if events.len() == 0 {
        p
    } else {
        next_phase(phase_after(p, events.drop_last()), events.last())
    }
}

/// Frames are processed only after the greeting: whenever a connection that
/// starts out waiting for its upgrade has reached the greeting or the
/// streaming phase, some earlier event was the upgrade, taken while it was
/// still handshaking, which is the event answered with the greeting.
pub proof fn greeting_precedes_frames(events: Seq<Event>, k: int)
    requires
        0 <= k <= events.len(),
        phase_after(Phase::Handshaking, events.take(k)) == Phase::Greeting
            || phase_after(Phase::Handshaking, events.take(k)) == Phase::Streaming,
    ensures
        exists|j: int|
            0 <= j < k && phase_after(Phase::Handshaking, events.take(j)) == Phase::Handshaking
                && (#[trigger] events[j] is Upgraded),
    decreases k,
{
    if k == 0 {
        assert(events.take(0) =~= Seq::<Event>::empty());
    } else {
        assert(events.take(k).drop_last() =~= events.take(k - 1));
        let q = phase_after(Phase::Handshaking, events.take(k - 1));
        if q == Phase::Greeting || q == Phase::Streaming {
            greeting_precedes_frames(events, k - 1);
        } else {
            assert(events[k - 1] is Upgraded);
        }
    }
}

/// The greeting goes out at most once: a connection that has left the
/// handshaking phase never comes back to it, and only that phase answers
/// an event by sending.
pub proof fn greeting_sent_once(p: Phase, events: Seq<Event>, version: Seq<char>)
    requires
        p != Phase::Handshaking,
    ensures
        phase_after(p, events) != Phase::Handshaking,
        forall|e: Event, a: Action|
            #[trigger] answers(phase_after(p, events), version, e, a) ==> !(a is Send),
    decreases events.len(),
{
    if events.len() > 0 {
        greeting_sent_once(p, events.drop_last(), version);
    }
}

/// A text frame that is not JSON is reported, publishes nothing, and leaves
/// the connection streaming.
pub proof fn malformed_frame_keeps_connection(version: Seq<char>, text: String, a: Action)
    requires
        !json_accepts(text@),
        answers(Phase::Streaming, version, Event::Received(Frame::Text(text)), a),
    ensures
        a matches Action::Report(Notice::DecodeFailed(_)),
        next_phase(Phase::Streaming, Event::Received(Frame::Text(text))) == Phase::Streaming,
{
}

/// A close frame ends a streaming connection, and only a close frame, a
/// failed receive or the end of the stream does.
pub proof fn close_ends_streaming(e: Event)
    ensures
        (next_phase(Phase::Streaming, e) == Phase::Closed) <==> (e matches Event::Received(Frame::Close)
            || e is ReceiveFailed || e is Ended),
{
}

/// The topic for messages of type `msg_type`.
pub fn topic_for(msg_type: &str) -> (r: String)
    ensures
        r@ == topic_text(msg_type@),
{
    let mut r = String::from_str("ws:");
    r.append(msg_type);
    r
}

/// The topics a message of type `msg_type` is published under: its own
/// topic first, then the catch-all one.
pub fn dispatch_topics(msg_type: &str) -> (r: Vec<String>)
    ensures
        names_topics(r@, msg_type@),
{
    let mut r: Vec<String> = Vec::new();
    r.push(topic_for(msg_type));
    r.push(String::from_str("ws:message"));
    r
}

/// What a decoded frame asks for: a message with a type is published, one
/// that is not JSON is reported, any other is dropped.
pub fn route(inbound: Inbound) -> (r: Action)
    ensures
        routed(inbound, r),
{
    match inbound {
        Inbound::Malformed(e) => Action::Report(Notice::DecodeFailed(e)),
        Inbound::Untyped(_) => Action::Nothing,
        Inbound::Typed(t, v) => Action::Publish(dispatch_topics(t.as_str()), v),
    }
}

/// What a text frame asks for.
pub fn handle_text(text: &str) -> (r: Action)
    ensures
        frame_answered(text@, r),
{
    route(decode(text))
}

/// One connection, from its upgrade to its close.
pub struct Connection {
    pub phase: Phase,
    /// The server version announced in the greeting.
    pub version: String,
}

impl Connection {
    /// A connection waiting for its upgrade.
    pub fn new(version: &str) -> (r: Self)
        ensures
            r.phase == Phase::Handshaking,
            r.version@ == version@,
    {
        Connection { phase: Phase::Handshaking, version: String::from_str(version) }
    }

    /// Whether the connection is finished.
    pub fn is_closed(&self) -> (r: bool)
        ensures
            r == (self.phase == Phase::Closed),
    {
        match self.phase {
            Phase::Closed => true,
            _ => false,
        }
    }

    /// Takes one event and says what to do about it.
    pub fn step(&mut self, event: Event) -> (r: Action)
        ensures
            final(self).phase == next_phase(old(self).phase, event),
            final(self).version == old(self).version,
            answers(old(self).phase, old(self).version@, event, r),
    {
        match self.phase {
            Phase::Handshaking => match event {
                Event::Upgraded => {
                    self.phase = Phase::Greeting;
                    Action::Send(handshake_message(self.version.as_str()))
                },
                Event::UpgradeFailed => {
                    self.phase = Phase::Closed;
                    Action::Report(Notice::UpgradeFailed)
                },
                _ => Action::Nothing,
            },
            Phase::Greeting => match event {
                Event::GreetingSent => {
                    self.phase = Phase::Streaming;
                    Action::Nothing
                },
                Event::GreetingFailed => {
                    self.phase = Phase::Closed;
                    Action::Report(Notice::GreetingFailed)
                },
                _ => Action::Nothing,
            },
            Phase::Streaming => match event {
                Event::Received(Frame::Text(s)) => handle_text(s.as_str()),
                Event::Received(Frame::Close) => {
                    self.phase = Phase::Closed;
                    Action::Report(Notice::ClosedByPeer)
                },
                Event::ReceiveFailed => {
                    self.phase = Phase::Closed;
                    Action::Report(Notice::ReceiveFailed)
                },
                Event::Ended => {
                    self.phase = Phase::Closed;
                    Action::Nothing
                },
                _ => Action::Nothing,
            },
            Phase::Closed => Action::Nothing,
        }
    }
}

} // verus!
